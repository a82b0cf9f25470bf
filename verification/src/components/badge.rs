//! Badge styles.

use vstd::prelude::*;

verus! {

/// Classes shared by every badge variant. A border reserves the same space in
/// every variant.
pub const BADGE_BASE: &'static str = "inline-flex w-fit shrink-0 items-center justify-center gap-1 rounded-md border px-2 py-0.5 text-xs font-medium whitespace-nowrap";

/// The visual style of a badge; `Primary` by default.
#[derive(Clone, Copy, Debug, PartialEq, Eq, Default)]
pub enum BadgeVariant {
    /// The primary-filled badge for highlighted statuses.
    #[default]
    Primary,
    /// A muted, tinted fill for neutral statuses.
    Secondary,
    /// A hairline-bordered badge on the page background.
    Outline,
    /// A destructive-filled badge for errors and warnings.
    Destructive,
}

/// The classes of each badge variant, border colour included.
pub open spec fn badge_classes(v: BadgeVariant) -> Seq<char> {
    match v {
        BadgeVariant::Primary => "border-transparent bg-primary text-primary-foreground"@,
        BadgeVariant::Secondary => "border-transparent bg-foreground/5 text-foreground"@,
        BadgeVariant::Outline => "border-border text-foreground"@,
        BadgeVariant::Destructive => "border-transparent bg-destructive text-destructive-foreground"@,
    }
}

impl BadgeVariant {
    /// Classes for the variant, including its border colour.
    pub fn classes(self) -> (res: &'static str)
        ensures
            res@ == badge_classes(self),
    {
        match self {
            BadgeVariant::Primary => "border-transparent bg-primary text-primary-foreground",
            BadgeVariant::Secondary => "border-transparent bg-foreground/5 text-foreground",
            BadgeVariant::Outline => "border-border text-foreground",
            BadgeVariant::Destructive => "border-transparent bg-destructive text-destructive-foreground",
        }
    }
}

} // verus!
