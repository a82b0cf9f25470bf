//! Products.

use vstd::prelude::*;

verus! {

/// A product.
#[derive(Clone, Debug, PartialEq, Eq)]
pub struct Product {
    pub id: String,
    /// URL segment (English slug).
    pub slug: String,
    pub title: String,
    /// Markdown description.
    pub description: String,
    /// Price in cents.
    pub price_cents: i64,
    pub stock: i64,
    /// Image URL.
    pub image: Option<String>,
    /// active (on sale) / off (taken off sale).
    pub status: String,
    /// Creation time (ISO text).
    pub created_at: String,
}

} // verus!
