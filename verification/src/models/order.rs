//! Orders and their line items.

use vstd::prelude::*;

verus! {

/// One line of an order: a snapshot of the product's title and price when the
/// order was placed.
#[derive(Clone, Debug, PartialEq, Eq)]
pub struct OrderItem {
    pub product_id: String,
    pub title: String,
    pub price_cents: i64,
    pub qty: i64,
}

/// An order (pending -> paid -> shipped -> completed, or cancelled).
#[derive(Clone, Debug, PartialEq, Eq)]
pub struct Order {
    pub id: String,
    /// The user who placed the order (the user's name).
    pub user_id: String,
    /// Line item snapshots.
    pub items: Vec<OrderItem>,
    /// Total in cents, fixed when the order is placed; the payment callback
    /// is checked against it.
    pub total_cents: i64,
    /// pending / paid / shipped / completed / cancelled.
    pub status: String,
    /// The Stripe Checkout Session that pays this order.
    pub stripe_session_id: Option<String>,
    pub paid_at: Option<String>,
    pub cancelled_at: Option<String>,
    pub created_at: String,
}

} // verus!
