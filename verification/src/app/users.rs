//! The public user profile.

use vstd::prelude::*;
use crate::common::constant::{USER_STATUS_ACTIVE, USER_STATUS_BANNED};
use crate::components::badge::BadgeVariant;
use crate::components::order_badge::StatusBadgeStyle;

verus! {

/// The i18n key and badge of an account status: banned is destructive,
/// active is secondary, anything else reads as pending with the warning
/// badge.
pub fn user_status_badge(status: u8) -> (res: (&'static str, StatusBadgeStyle))
    ensures
        status == USER_STATUS_BANNED ==> res.0@ == "user_status_banned"@
            && res.1 == StatusBadgeStyle::Badge(BadgeVariant::Destructive),
        status == USER_STATUS_ACTIVE ==> res.0@ == "user_status_active"@
            && res.1 == StatusBadgeStyle::Badge(BadgeVariant::Secondary),
        status != USER_STATUS_BANNED && status != USER_STATUS_ACTIVE ==> res.0@ == "user_status_pending"@
            && res.1 == StatusBadgeStyle::Warning,
{
    if status == USER_STATUS_BANNED {
        ("user_status_banned", StatusBadgeStyle::Badge(BadgeVariant::Destructive))
    } else if status == USER_STATUS_ACTIVE {
        ("user_status_active", StatusBadgeStyle::Badge(BadgeVariant::Secondary))
    } else {
        ("user_status_pending", StatusBadgeStyle::Warning)
    }
}

/// The e-mail address on a profile is shown only to its owner.
pub fn shows_email(visitor: Option<&str>, username: &str) -> (res: bool)
    ensures
        res == (visitor is Some && visitor->0@ == username@),
{
    match visitor {
        Some(v) => crate::text::str_eq(v, username),
        None => false,
    }
}

} // verus!
