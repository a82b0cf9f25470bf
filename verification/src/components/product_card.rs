//! Stock badge and product card text.

use vstd::prelude::*;
use crate::common::constant::PRODUCT_LOW_STOCK_THRESHOLD;
use crate::text::{owned, push_signed_decimal, push_str, replace, replace_all, signed_decimal};

verus! {

/// The low-stock message: the localized template with every `{stock}`
/// replaced by the stock in decimal.
pub fn low_stock_text(template: &str, stock: i64) -> (res: String)
    ensures
        res@ == replace_all(template@, "{stock}"@, signed_decimal(stock as int)),
{
    let mut n = String::new();
    push_signed_decimal(&mut n, stock);
    proof {
        reveal_strlit("{stock}");
    }
    replace(template, "{stock}", n.as_str())
}

/// The three stock badges.
#[derive(Clone, Copy, Debug, PartialEq, Eq)]
pub enum StockLevel {
    /// Nothing left (red badge).
    OutOfStock,
    /// At or below the low-stock threshold (yellow badge with the count).
    Low,
    /// Plenty in stock.
    InStock,
}

/// The badge of a stock count: zero is out of stock, anything up to the
/// threshold (negative counts included) is low, the rest is in stock.
pub open spec fn stock_level_of(stock: int) -> StockLevel {
    if stock == 0 {
        StockLevel::OutOfStock
    } else if stock <= PRODUCT_LOW_STOCK_THRESHOLD {
        StockLevel::Low
    } else {
        StockLevel::InStock
    }
}

/// Picks the stock badge for a stock count.
pub fn stock_level(stock: i64) -> (res: StockLevel)
    ensures
        res == stock_level_of(stock as int),
{
    if stock == 0 {
        StockLevel::OutOfStock
    } else if stock <= PRODUCT_LOW_STOCK_THRESHOLD {
        StockLevel::Low
    } else {
        StockLevel::InStock
    }
}

/// The page of a product: `/{locale}/products/{slug}`.
pub open spec fn product_location(locale: Seq<char>, slug: Seq<char>) -> Seq<char> {
    seq!['/'] + locale + "/products/"@ + slug
}

/// The product page link of a card: `/{locale}/products/{slug}`.
pub fn product_href(locale: &str, slug: &str) -> (res: String)
    ensures
        res@ == product_location(locale@, slug@),
{
    let mut s = owned("/");
    push_str(&mut s, locale);
    push_str(&mut s, "/products/");
    push_str(&mut s, slug);
    proof {
        reveal_strlit("/");
    }
    assert(s@ =~= product_location(locale@, slug@));
    s
}

} // verus!
