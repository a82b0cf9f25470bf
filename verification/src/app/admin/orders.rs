//! Admin order list, detail and status changes.

use vstd::prelude::*;
use crate::common::order_state::{allowed_transition, transition_allowed};
use crate::models::order::Order;
use crate::text::{owned, prefix_chars, push_signed_decimal, push_str, signed_decimal, str_eq, take_chars};

verus! {

/// Query of the admin order list.
pub struct AdminOrdersQuery {
    pub page: Option<u64>,
}

/// Form posted to change an order's status.
pub struct StatusForm {
    pub to: String,
    pub csrf_token: String,
}

/// `/{locale}/admin/orders`, or `/{locale}/admin/orders/{id}` for the detail
/// page, followed by `?ok={notice}`.
pub open spec fn admin_orders_back_location(locale: Seq<char>, order_id: Seq<char>, detail: bool, notice: Seq<char>) -> Seq<char> {
    if detail {
        seq!['/'] + locale + "/admin/orders/"@ + order_id + "?ok="@ + notice
    } else {
        seq!['/'] + locale + "/admin/orders"@ + "?ok="@ + notice
    }
}

fn admin_orders_back_url(locale: &str, order_id: &str, detail: bool, notice: &str) -> (res: String)
    ensures
        res@ == admin_orders_back_location(locale@, order_id@, detail, notice@),
{
    let mut s = owned("/");
    push_str(&mut s, locale);
    if detail {
        push_str(&mut s, "/admin/orders/");
        push_str(&mut s, order_id);
    } else {
        push_str(&mut s, "/admin/orders");
    }
    push_str(&mut s, "?ok=");
    push_str(&mut s, notice);
    proof {
        reveal_strlit("/");
    }
    assert(s@ =~= admin_orders_back_location(locale@, order_id@, detail, notice@));
    s
}

/// What the status-change handler does next.
pub enum StatusStep {
    /// The CSRF token does not match: refuse the request.
    Forbidden,
    /// Go back with the "invalid" notice.
    Redirect(String),
    /// Move the order from `from` to `to` if it is still in `from`; go to
    /// `ok_url` when it moved and to `invalid_url` when it did not.
    Transition { from: String, to: String, ok_url: String, invalid_url: String },
}

/// The status-change decision. `back` is the `back` query parameter (`detail`
/// returns to the order page, anything else to the list) and `current` the
/// order's status, `None` when the order was not found. A bad CSRF token is
/// refused; a missing order or a move the state machine does not allow goes
/// back with "invalid"; otherwise the move is attempted.
pub fn status_step(locale: &str, order_id: &str, back: Option<&str>, csrf_ok: bool, current: Option<&str>, to: &str) -> (res: StatusStep)
    ensures
        ({
            let detail = back is Some && back->0@ == "detail"@;
            let ok = admin_orders_back_location(locale@, order_id@, detail, "updated"@);
            let invalid = admin_orders_back_location(locale@, order_id@, detail, "invalid"@);
            if !csrf_ok {
                res is Forbidden
            } else {
                match current {
                    None => res matches StatusStep::Redirect(u) && u@ == invalid,
                    Some(c) => if !transition_allowed(c@, to@) {
                        res matches StatusStep::Redirect(u) && u@ == invalid
                    } else {
                        res matches StatusStep::Transition { from, to: t, ok_url, invalid_url }
                            && from@ == c@ && t@ == to@ && ok_url@ == ok && invalid_url@ == invalid
                    },
                }
            }
        }),
        res matches StatusStep::Transition { from, to: t, .. } ==> transition_allowed(from@, t@),
{
    if !csrf_ok {
        return StatusStep::Forbidden;
    }
    let detail = match back {
        Some(b) => str_eq(b, "detail"),
        None => false,
    };
    let ok_url = admin_orders_back_url(locale, order_id, detail, "updated");
    let invalid_url = admin_orders_back_url(locale, order_id, detail, "invalid");
    match current {
        None => StatusStep::Redirect(invalid_url),
        Some(c) => {
            if !allowed_transition(c, to) {
                StatusStep::Redirect(invalid_url)
            } else {
                StatusStep::Transition { from: owned(c), to: owned(to), ok_url, invalid_url }
            }
        },
    }
}

/// `/{locale}/admin/orders/{order_id}/status?back={back}`: where the action
/// buttons of an order post to.
pub fn status_form_action(locale: &str, order_id: &str, back: &str) -> (res: String)
    ensures
        res@ == seq!['/'] + locale@ + "/admin/orders/"@ + order_id@ + "/status?back="@ + back@,
{
    let mut s = owned("/");
    push_str(&mut s, locale);
    push_str(&mut s, "/admin/orders/");
    push_str(&mut s, order_id);
    push_str(&mut s, "/status?back=");
    push_str(&mut s, back);
    proof {
        reveal_strlit("/");
    }
    assert(s@ =~= seq!['/'] + locale@ + "/admin/orders/"@ + order_id@ + "/status?back="@ + back@);
    s
}

/// `/{locale}/admin/orders/{order_id}`: the admin page of an order.
pub fn admin_order_href(locale: &str, order_id: &str) -> (res: String)
    ensures
        res@ == seq!['/'] + locale@ + "/admin/orders/"@ + order_id@,
{
    let mut s = owned("/");
    push_str(&mut s, locale);
    push_str(&mut s, "/admin/orders/");
    push_str(&mut s, order_id);
    proof {
        reveal_strlit("/");
    }
    assert(s@ =~= seq!['/'] + locale@ + "/admin/orders/"@ + order_id@);
    s
}

/// The summary of an order's first line, `{title} × {qty}`; `None` for an
/// order without lines.
pub fn item_summary(order: &Order) -> (res: Option<String>)
    ensures
        order.items@.len() == 0 ==> res is None,
        order.items@.len() > 0 ==> (res matches Some(s)
            && s@ == order.items@[0].title@ + " × "@ + signed_decimal(order.items@[0].qty as int)),
{
    if order.items.len() == 0 {
        return None;
    }
    let item = &order.items[0];
    let mut s = owned(item.title.as_str());
    push_str(&mut s, " × ");
    push_signed_decimal(&mut s, item.qty);
    Some(s)
}

/// How many lines an order has beyond the first.
pub fn extra_item_count(order: &Order) -> (res: usize)
    ensures
        res == if order.items@.len() > 0 { order.items@.len() - 1 } else { 0 },
{
    if order.items.len() > 0 { order.items.len() - 1 } else { 0 }
}

/// The date part (first ten characters) of a timestamp.
pub fn date_part(timestamp: &str) -> (res: String)
    ensures
        res@ == prefix_chars(timestamp@, 10),
{
    take_chars(timestamp, 10)
}

/// The date part of an optional timestamp, or `-` when there is none.
pub fn date_or_dash(timestamp: Option<&str>) -> (res: String)
    ensures
        match timestamp {
            Some(t) => res@ == prefix_chars(t@, 10),
            None => res@ == "-"@,
        },
{
    match timestamp {
        Some(t) => take_chars(t, 10),
        None => owned("-"),
    }
}

/// The amount of one order line: unit price times quantity.
pub fn line_total(price_cents: i64, qty: i64) -> (res: i64)
    requires
        i64::MIN <= price_cents * qty <= i64::MAX,
    ensures
        res == price_cents * qty,
{
    price_cents * qty
}

} // verus!
