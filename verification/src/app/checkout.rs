//! Placing an order and sending the buyer to payment.

use vstd::prelude::*;
use crate::common::constant::PRODUCT_STATUS_ACTIVE;
use crate::common::form::{is_safe_next, safe_next};
use crate::common::login_guard::{sign_in_location, sign_in_url};
use crate::components::product_card::{product_href, product_location};
use crate::models::order::OrderItem;
use crate::models::product::Product;
use crate::text::{owned, push_str, str_eq};

verus! {

/// Form posted by the "buy now" button.
pub struct CheckoutForm {
    pub product_id: String,
    /// Where to come back to after signing in.
    pub next: String,
    pub csrf_token: String,
}

/// What the checkout handler does next.
pub enum CheckoutStep {
    /// The CSRF token does not match: refuse the request.
    Forbidden,
    /// Send the visitor elsewhere (error or sign-in).
    Redirect(String),
    /// Create a pending order for `username` with these line items and this
    /// total, then start payment; on failure go back to `detail_url`.
    PlaceOrder { username: String, items: Vec<OrderItem>, total_cents: i64, detail_url: String },
}

/// `/{locale}/products?error=invalid`.
pub open spec fn invalid_product_location(locale: Seq<char>) -> Seq<char> {
    seq!['/'] + locale + "/products?error=invalid"@
}

/// `{url}?error={code}`.
pub open spec fn with_error(url: Seq<char>, code: Seq<char>) -> Seq<char> {
    url + "?error="@ + code
}

/// Appends `?error={code}` to a URL.
pub fn error_url(url: &str, code: &str) -> (res: String)
    ensures
        res@ == with_error(url@, code@),
{
    let mut s = owned(url);
    push_str(&mut s, "?error=");
    push_str(&mut s, code);
    s
}

/// The checkout decision, taken in this order:
/// - a bad CSRF token is refused;
/// - a product that was not found sends back to the product list;
/// - a product that is not on sale, or out of stock, sends back to its page
///   with an error;
/// - a visitor who is not signed in goes to sign in, coming back to the safe
///   `next` path given, or else to the product page;
/// - otherwise a single-item order at the product's price is placed.
pub fn checkout_step(locale: &str, csrf_ok: bool, product: Option<&Product>, user: Option<&str>, next: &str) -> (res: CheckoutStep)
    ensures
        !csrf_ok ==> res is Forbidden,
        csrf_ok && product is None ==> (res matches CheckoutStep::Redirect(u) && u@ == invalid_product_location(locale@)),
        csrf_ok && product is Some ==> ({
            let p = product->0;
            let detail = product_location(locale@, p.slug@);
            if p.status@ != PRODUCT_STATUS_ACTIVE@ {
                res matches CheckoutStep::Redirect(u) && u@ == with_error(detail, "invalid"@)
            } else if p.stock <= 0 {
                res matches CheckoutStep::Redirect(u) && u@ == with_error(detail, "stock"@)
            } else {
                match user {
                    None => res matches CheckoutStep::Redirect(u) && u@ == sign_in_location(
                        locale@,
                        if is_safe_next(next@) { next@ } else { detail },
                    ),
                    Some(name) => res matches CheckoutStep::PlaceOrder { username, items, total_cents, detail_url }
                        && username@ == name@
                        && items@.len() == 1
                        && items@[0].product_id@ == p.id@
                        && items@[0].title@ == p.title@
                        && items@[0].price_cents == p.price_cents
                        && items@[0].qty == 1
                        && total_cents == p.price_cents
                        && detail_url@ == detail,
                }
            }
        }),
{
    if !csrf_ok {
        return CheckoutStep::Forbidden;
    }
    let p = match product {
        None => {
            let mut u = owned("/");
            push_str(&mut u, locale);
            push_str(&mut u, "/products?error=invalid");
            proof {
                reveal_strlit("/");
            }
            assert(u@ =~= invalid_product_location(locale@));
            return CheckoutStep::Redirect(u);
        },
        Some(p) => p,
    };
    let detail = product_href(locale, p.slug.as_str());
    if !str_eq(p.status.as_str(), PRODUCT_STATUS_ACTIVE) {
        return CheckoutStep::Redirect(error_url(detail.as_str(), "invalid"));
    }
    if p.stock <= 0 {
        return CheckoutStep::Redirect(error_url(detail.as_str(), "stock"));
    }
    match user {
        None => {
            let back = match safe_next(next) {
                Some(n) => n,
                None => detail,
            };
            CheckoutStep::Redirect(sign_in_url(locale, back.as_str()))
        },
        Some(name) => {
            let item = OrderItem {
                product_id: p.id.clone(),
                title: p.title.clone(),
                price_cents: p.price_cents,
                qty: 1,
            };
            let mut items: Vec<OrderItem> = Vec::new();
            items.push(item);
            CheckoutStep::PlaceOrder {
                username: owned(name),
                items,
                total_cents: p.price_cents,
                detail_url: detail,
            }
        },
    }
}

/// `{scheme}://{domain}/{locale}/orders/{order_id}?result={result}`.
pub open spec fn payment_return_location(scheme: Seq<char>, domain: Seq<char>, locale: Seq<char>, order_id: Seq<char>, result: Seq<char>) -> Seq<char> {
    scheme + "://"@ + domain + seq!['/'] + locale + "/orders/"@ + order_id + "?result="@ + result
}

/// The pages Stripe sends the buyer back to: the order page with
/// `result=success` after paying and `result=cancel` after giving up.
pub fn payment_return_urls(scheme: &str, domain: &str, locale: &str, order_id: &str) -> (res: (String, String))
    ensures
        res.0@ == payment_return_location(scheme@, domain@, locale@, order_id@, "success"@),
        res.1@ == payment_return_location(scheme@, domain@, locale@, order_id@, "cancel"@),
{
    (return_url(scheme, domain, locale, order_id, "success"), return_url(scheme, domain, locale, order_id, "cancel"))
}

fn return_url(scheme: &str, domain: &str, locale: &str, order_id: &str, result: &str) -> (res: String)
    ensures
        res@ == payment_return_location(scheme@, domain@, locale@, order_id@, result@),
{
    let mut s = owned(scheme);
    push_str(&mut s, "://");
    push_str(&mut s, domain);
    push_str(&mut s, "/");
    push_str(&mut s, locale);
    push_str(&mut s, "/orders/");
    push_str(&mut s, order_id);
    push_str(&mut s, "?result=");
    push_str(&mut s, result);
    proof {
        reveal_strlit("/");
    }
    assert(s@ =~= payment_return_location(scheme@, domain@, locale@, order_id@, result@));
    s
}

} // verus!
