//! The order status badge: its text key and its style.

use vstd::prelude::*;
use crate::common::constant::{
    ORDER_STATUS_CANCELLED, ORDER_STATUS_COMPLETED, ORDER_STATUS_PAID, ORDER_STATUS_PENDING,
    ORDER_STATUS_SHIPPED,
};
use crate::components::badge::BadgeVariant;
use crate::text::str_eq;

verus! {

/// The i18n key of each order status; an unknown status reads as pending.
pub open spec fn status_key(status: Seq<char>) -> Seq<char> {
    if status == ORDER_STATUS_PENDING@ { "order_status_pending"@ }
    else if status == ORDER_STATUS_PAID@ { "order_status_paid"@ }
    else if status == ORDER_STATUS_SHIPPED@ { "order_status_shipped"@ }
    else if status == ORDER_STATUS_COMPLETED@ { "order_status_completed"@ }
    else if status == ORDER_STATUS_CANCELLED@ { "order_status_cancelled"@ }
    else { "order_status_pending"@ }
}

/// The i18n key of the text shown for an order status.
pub fn status_text_key(status: &str) -> (res: &'static str)
    ensures
        res@ == status_key(status@),
{
    if str_eq(status, ORDER_STATUS_PENDING) { "order_status_pending" }
    else if str_eq(status, ORDER_STATUS_PAID) { "order_status_paid" }
    else if str_eq(status, ORDER_STATUS_SHIPPED) { "order_status_shipped" }
    else if str_eq(status, ORDER_STATUS_COMPLETED) { "order_status_completed" }
    else if str_eq(status, ORDER_STATUS_CANCELLED) { "order_status_cancelled" }
    else { "order_status_pending" }
}

/// How a status badge is drawn: one of the badge variants, or the warning
/// style (used for pending and unknown statuses).
#[derive(Clone, Copy, Debug, PartialEq, Eq)]
pub enum StatusBadgeStyle {
    Badge(BadgeVariant),
    Warning,
}

/// The badge style of each order status.
pub open spec fn status_style(status: Seq<char>) -> StatusBadgeStyle {
    if status == ORDER_STATUS_PAID@ {
        StatusBadgeStyle::Badge(BadgeVariant::Primary)
    } else if status == ORDER_STATUS_CANCELLED@ {
        StatusBadgeStyle::Badge(BadgeVariant::Destructive)
    } else if status == ORDER_STATUS_SHIPPED@ || status == ORDER_STATUS_COMPLETED@ {
        StatusBadgeStyle::Badge(BadgeVariant::Secondary)
    } else {
        StatusBadgeStyle::Warning
    }
}

/// Picks the badge style for an order status: paid is primary, cancelled is
/// destructive, shipped and completed are secondary, anything else warns.
pub fn status_badge_style(status: &str) -> (res: StatusBadgeStyle)
    ensures
        res == status_style(status@),
{
    if str_eq(status, ORDER_STATUS_PAID) {
        StatusBadgeStyle::Badge(BadgeVariant::Primary)
    } else if str_eq(status, ORDER_STATUS_CANCELLED) {
        StatusBadgeStyle::Badge(BadgeVariant::Destructive)
    } else if str_eq(status, ORDER_STATUS_SHIPPED) || str_eq(status, ORDER_STATUS_COMPLETED) {
        StatusBadgeStyle::Badge(BadgeVariant::Secondary)
    } else {
        StatusBadgeStyle::Warning
    }
}

} // verus!
