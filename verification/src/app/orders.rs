//! The buyer's order list and order page.

use vstd::prelude::*;
use crate::common::constant::{ORDER_STATUS_CANCELLED, ORDER_STATUS_PENDING, PRODUCT_STATUS_ACTIVE};
use crate::components::product_card::{product_href, product_location};
use crate::models::order::Order;
use crate::models::product::Product;
use crate::text::{owned, push_str, str_eq};

verus! {

/// Query of the order list and order page.
pub struct OrdersQuery {
    pub page: Option<u64>,
    pub result: Option<String>,
}

/// The banner at the top of an order page.
#[derive(Clone, Copy, Debug, PartialEq, Eq)]
pub enum OrderBanner {
    /// Back from Stripe after paying.
    PaymentSuccess,
    /// Back from Stripe after giving up.
    PaymentCancel,
    /// The order still waits for the payment callback.
    Processing,
    /// No banner.
    Nothing,
}

/// The banner of an order page: the payment result the page was opened with
/// (`success` or `cancel`) if any, else "processing" while the order is
/// pending.
pub open spec fn banner_for(result: Seq<char>, status: Seq<char>) -> OrderBanner {
    if result == "success"@ {
        OrderBanner::PaymentSuccess
    } else if result == "cancel"@ {
        OrderBanner::PaymentCancel
    } else if status == ORDER_STATUS_PENDING@ {
        OrderBanner::Processing
    } else {
        OrderBanner::Nothing
    }
}

/// The payment result the page was opened with decides the banner whatever
/// the order's status; without one, the "processing" banner is shown exactly
/// for a pending order and any other order shows no banner.
pub proof fn lemma_banner_rule(result: Seq<char>, status: Seq<char>, other: Seq<char>)
    ensures
        result == "success"@ ==> banner_for(result, status) == OrderBanner::PaymentSuccess,
        result == "cancel"@ ==> banner_for(result, status) == OrderBanner::PaymentCancel,
        result != "success"@ && result != "cancel"@ ==> {
            &&& (banner_for(result, status) == OrderBanner::Processing) <==> status == ORDER_STATUS_PENDING@
            &&& status != ORDER_STATUS_PENDING@ ==> banner_for(result, status) == OrderBanner::Nothing
        },
        status != ORDER_STATUS_PENDING@ && other != ORDER_STATUS_PENDING@
            ==> banner_for(result, status) == banner_for(result, other),
{
    reveal_strlit("success");
    reveal_strlit("cancel");
    assert("success"@.len() != "cancel"@.len());
}

/// Picks the banner of an order page.
pub fn order_banner(result: &str, status: &str) -> (res: OrderBanner)
    ensures
        res == banner_for(result@, status@),
{
    if str_eq(result, "success") {
        OrderBanner::PaymentSuccess
    } else if str_eq(result, "cancel") {
        OrderBanner::PaymentCancel
    } else if str_eq(status, ORDER_STATUS_PENDING) {
        OrderBanner::Processing
    } else {
        OrderBanner::Nothing
    }
}

/// The i18n key of a payment-result banner.
pub fn banner_key(banner: OrderBanner) -> (res: Option<&'static str>)
    ensures
        banner == OrderBanner::PaymentSuccess ==> (res matches Some(k) && k@ == "payment_success"@),
        banner == OrderBanner::PaymentCancel ==> (res matches Some(k) && k@ == "payment_cancel"@),
        banner == OrderBanner::Processing ==> (res matches Some(k) && k@ == "payment_processing"@),
        banner == OrderBanner::Nothing ==> res is None,
{
    match banner {
        OrderBanner::PaymentSuccess => Some("payment_success"),
        OrderBanner::PaymentCancel => Some("payment_cancel"),
        OrderBanner::Processing => Some("payment_processing"),
        OrderBanner::Nothing => None,
    }
}

/// An order page is shown only to the user who placed the order; anyone
/// else, and any unknown order, gets a 404.
pub fn can_view_order(order: Option<&Order>, username: &str) -> (res: bool)
    ensures
        res == (order is Some && order->0.user_id@ == username@),
{
    match order {
        Some(o) => str_eq(o.user_id.as_str(), username),
        None => false,
    }
}

/// The "pay again" link is offered for a cancelled order, or when the buyer
/// came back from Stripe without paying.
pub fn shows_retry(status: &str, result: &str) -> (res: bool)
    ensures
        res == (status@ == ORDER_STATUS_CANCELLED@ || result@ == "cancel"@),
{
    str_eq(status, ORDER_STATUS_CANCELLED) || str_eq(result, "cancel")
}

/// Where "pay again" leads: the page of the order's (first) product when
/// that product still exists and is on sale, else the product list.
pub fn retry_url(locale: &str, product: Option<&Product>) -> (res: String)
    ensures
        match product {
            Some(p) => if p.status@ == PRODUCT_STATUS_ACTIVE@ {
                res@ == product_location(locale@, p.slug@)
            } else {
                res@ == seq!['/'] + locale@ + "/products"@
            },
            None => res@ == seq!['/'] + locale@ + "/products"@,
        },
{
    if let Some(p) = product {
        if str_eq(p.status.as_str(), PRODUCT_STATUS_ACTIVE) {
            return product_href(locale, p.slug.as_str());
        }
    }
    let mut s = owned("/");
    push_str(&mut s, locale);
    push_str(&mut s, "/products");
    proof {
        reveal_strlit("/");
    }
    assert(s@ =~= seq!['/'] + locale@ + "/products"@);
    s
}

/// `/{locale}/orders/{order_id}`: the buyer's page of an order.
pub fn order_href(locale: &str, order_id: &str) -> (res: String)
    ensures
        res@ == seq!['/'] + locale@ + "/orders/"@ + order_id@,
{
    let mut s = owned("/");
    push_str(&mut s, locale);
    push_str(&mut s, "/orders/");
    push_str(&mut s, order_id);
    proof {
        reveal_strlit("/");
    }
    assert(s@ =~= seq!['/'] + locale@ + "/orders/"@ + order_id@);
    s
}

} // verus!
