//! Button styles.

use vstd::prelude::*;

verus! {

/// Classes shared by every button variant and size.
pub const BUTTON_BASE: &'static str = "inline-flex shrink-0 items-center justify-center border text-sm font-medium whitespace-nowrap transition-colors outline-none select-none focus-visible:ring-2 focus-visible:ring-ring focus-visible:ring-offset-2 focus-visible:ring-offset-background disabled:pointer-events-none disabled:opacity-50";

/// The visual style of a button; `Primary` by default.
#[derive(Clone, Copy, Debug, PartialEq, Eq, Default)]
pub enum ButtonVariant {
    /// The primary-filled button for the main action.
    #[default]
    Primary,
    /// A muted, tinted fill for secondary actions.
    Secondary,
    /// A hairline-bordered button on the page background.
    Outline,
    /// No fill until hovered, for toolbars and inline actions.
    Quiet,
    /// A destructive-filled button for actions such as deleting data.
    Destructive,
}

/// The size of a button; `Md` by default.
#[derive(Clone, Copy, Debug, PartialEq, Eq, Default)]
pub enum ButtonSize {
    /// A compact button.
    Sm,
    /// The standard button size.
    #[default]
    Md,
    /// A prominent button.
    Lg,
    /// A square button sized for a single icon.
    Icon,
}

/// The classes of each button variant and its interaction states.
pub open spec fn button_variant_classes(v: ButtonVariant) -> Seq<char> {
    match v {
        ButtonVariant::Primary => "border-transparent bg-primary text-primary-foreground shadow-xs hover:bg-primary/90 active:bg-primary/80"@,
        ButtonVariant::Secondary => "border-transparent bg-foreground/5 text-foreground shadow-xs hover:bg-foreground/10 active:bg-foreground/15"@,
        ButtonVariant::Outline => "border-border text-foreground hover:bg-foreground/5 active:bg-foreground/10"@,
        ButtonVariant::Quiet => "border-transparent text-foreground hover:bg-foreground/5 active:bg-foreground/10"@,
        ButtonVariant::Destructive => "border-transparent bg-destructive text-destructive-foreground shadow-xs hover:bg-destructive/90 active:bg-destructive/80"@,
    }
}

/// The classes of each button size.
pub open spec fn button_size_classes(s: ButtonSize) -> Seq<char> {
    match s {
        ButtonSize::Sm => "h-8 gap-1.5 rounded-md px-3"@,
        ButtonSize::Md => "h-9 gap-2 rounded-lg px-4"@,
        ButtonSize::Lg => "h-10 gap-2 rounded-lg px-5"@,
        ButtonSize::Icon => "size-9 rounded-lg"@,
    }
}

impl ButtonVariant {
    /// Classes for the variant and its interaction states.
    pub fn classes(self) -> (res: &'static str)
        ensures
            res@ == button_variant_classes(self),
    {
        match self {
            ButtonVariant::Primary => "border-transparent bg-primary text-primary-foreground shadow-xs hover:bg-primary/90 active:bg-primary/80",
            ButtonVariant::Secondary => "border-transparent bg-foreground/5 text-foreground shadow-xs hover:bg-foreground/10 active:bg-foreground/15",
            ButtonVariant::Outline => "border-border text-foreground hover:bg-foreground/5 active:bg-foreground/10",
            ButtonVariant::Quiet => "border-transparent text-foreground hover:bg-foreground/5 active:bg-foreground/10",
            ButtonVariant::Destructive => "border-transparent bg-destructive text-destructive-foreground shadow-xs hover:bg-destructive/90 active:bg-destructive/80",
        }
    }
}

impl ButtonSize {
    /// Classes for the button dimensions; the text size is the same in all.
    pub fn classes(self) -> (res: &'static str)
        ensures
            res@ == button_size_classes(self),
    {
        match self {
            ButtonSize::Sm => "h-8 gap-1.5 rounded-md px-3",
            ButtonSize::Md => "h-9 gap-2 rounded-lg px-4",
            ButtonSize::Lg => "h-10 gap-2 rounded-lg px-5",
            ButtonSize::Icon => "size-9 rounded-lg",
        }
    }
}

} // verus!
