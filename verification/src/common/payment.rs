//! The payment boundary: what a Stripe Checkout Session is made of, and what
//! a payment webhook does to an order.
//!
//! The network calls (creating the session, verifying the signature of a
//! webhook) are made by the caller; this module holds every decision around
//! them.

use vstd::prelude::*;
use crate::common::constant::{ORDER_STATUS_PAID, ORDER_STATUS_PENDING};
use crate::models::order::{Order, OrderItem};
use crate::text::{owned, push_signed_decimal, push_str, signed_decimal, str_eq};

verus! {

/// Error when no Stripe secret key is configured.
pub const STRIPE_KEY_MISSING: &'static str = "支付通道未配置（STRIPE_SECRET_KEY 为空）";
/// Error when the order has no line item to pay for.
pub const ORDER_WITHOUT_ITEMS: &'static str = "订单无条目，无法发起支付";
/// Error when Stripe returns a session without a payment URL.
pub const SESSION_WITHOUT_URL: &'static str = "Stripe 未返回支付跳转链接";
/// Error when no webhook signing secret is configured.
pub const WEBHOOK_SECRET_MISSING: &'static str = "webhook 验签密钥未配置（STRIPE_WEBHOOK_SECRET 为空）";
/// The webhook event type that completes a payment.
pub const CHECKOUT_SESSION_COMPLETED: &'static str = "checkout.session.completed";

/// The one line item of a Checkout Session (single product, USD).
pub struct CheckoutLine {
    /// Product name shown on the payment page.
    pub name: String,
    /// Unit price in cents.
    pub unit_amount: i64,
    /// Quantity, at least 1.
    pub quantity: u64,
}

/// What a Checkout Session for `order` is made of: an error without a secret
/// key or without line items, otherwise the first line item with its
/// quantity raised to at least 1.
pub fn checkout_line(secret_key: &str, order: &Order) -> (res: Result<CheckoutLine, String>)
    ensures
        secret_key@.len() == 0 ==> (res matches Err(e) && e@ == STRIPE_KEY_MISSING@),
        secret_key@.len() > 0 && order.items@.len() == 0 ==> (res matches Err(e) && e@ == ORDER_WITHOUT_ITEMS@),
        secret_key@.len() > 0 && order.items@.len() > 0 ==> (res matches Ok(line) && {
            let item = order.items@[0];
            &&& line.name@ == item.title@
            &&& line.unit_amount == item.price_cents
            &&& line.quantity == if item.qty >= 1 { item.qty as int } else { 1 }
        }),
{
    if secret_key.is_empty() {
        return Err(owned(STRIPE_KEY_MISSING));
    }
    if order.items.len() == 0 {
        return Err(owned(ORDER_WITHOUT_ITEMS));
    }
    let item = &order.items[0];
    let quantity: u64 = if item.qty >= 1 { item.qty as u64 } else { 1 };
    Ok(CheckoutLine { name: item.title.clone(), unit_amount: item.price_cents, quantity })
}

/// The result of creating a session: its payment URL and its id, or an error
/// when Stripe gave no URL.
pub fn checkout_session_result(url: Option<String>, session_id: String) -> (res: Result<(String, String), String>)
    ensures
        match url {
            Some(u) => res matches Ok(p) && p.0@ == u@ && p.1@ == session_id@,
            None => res matches Err(e) && e@ == SESSION_WITHOUT_URL@,
        },
{
    match url {
        Some(u) => Ok((u, session_id)),
        None => Err(owned(SESSION_WITHOUT_URL)),
    }
}

/// A webhook can only be checked when a signing secret is configured.
pub fn webhook_secret_check(secret: &str) -> (res: Result<(), String>)
    ensures
        secret@.len() == 0 <==> res is Err,
        res matches Err(e) ==> e@ == WEBHOOK_SECRET_MISSING@,
{
    if secret.is_empty() {
        Err(owned(WEBHOOK_SECRET_MISSING))
    } else {
        Ok(())
    }
}

/// The error returned when a webhook's signature does not verify.
pub fn signature_error(reason: &str) -> (res: String)
    ensures
        res@ == "验签失败: "@ + reason@,
{
    let mut s = owned("验签失败: ");
    push_str(&mut s, reason);
    s
}

/// The Checkout Session carried by a webhook event.
pub struct CheckoutSessionInfo {
    pub id: String,
    /// Total charged, in cents.
    pub amount_total: Option<i64>,
}

/// A webhook event whose signature was verified: its type, and the Checkout
/// Session it carries if it carries one.
pub struct WebhookEvent {
    pub event_type: String,
    pub checkout_session: Option<CheckoutSessionInfo>,
}

/// The session of a `checkout.session.completed` event that carries one;
/// every other event is ignored.
pub fn completed_session(event: &WebhookEvent) -> (res: Option<&CheckoutSessionInfo>)
    ensures
        match res {
            Some(s) => event.event_type@ == CHECKOUT_SESSION_COMPLETED@ && event.checkout_session == Some(*s),
            None => event.event_type@ != CHECKOUT_SESSION_COMPLETED@ || event.checkout_session is None,
        },
{
    if str_eq(event.event_type.as_str(), CHECKOUT_SESSION_COMPLETED) {
        match &event.checkout_session {
            Some(s) => Some(s),
            None => None,
        }
    } else {
        None
    }
}

/// What a completed payment does to its order.
pub enum PaymentAction {
    /// The order is already paid: the callback is a repeat and changes nothing.
    AlreadyPaid,
    /// Mark the order paid, then take each (product id, quantity) out of stock.
    MarkPaid { order_id: String, stock: Vec<(String, i64)> },
}

/// Error text: no order is linked to the session.
pub open spec fn order_not_found_text(session_id: Seq<char>) -> Seq<char> {
    "未找到关联订单: "@ + session_id
}

/// Error text: the order is neither pending nor paid.
pub open spec fn bad_status_text(status: Seq<char>, order_id: Seq<char>) -> Seq<char> {
    "订单状态异常（当前 "@ + status + "，期望 "@ + ORDER_STATUS_PENDING@ + "）: "@ + order_id
}

/// Error text: the callback carries no amount.
pub open spec fn missing_amount_text(session_id: Seq<char>) -> Seq<char> {
    "回调缺少金额: "@ + session_id
}

/// Error text: the amount paid differs from the order's total.
pub open spec fn amount_mismatch_text(amount: i64, total: i64, order_id: Seq<char>) -> Seq<char> {
    "金额不符（回调 "@ + signed_decimal(amount as int) + "，订单 "@ + signed_decimal(total as int)
        + "）: "@ + order_id
}

/// The stock to take out for an order: each line's product and quantity.
pub open spec fn stock_matches_items(items: Seq<OrderItem>, stock: Seq<(String, i64)>) -> bool {
    &&& stock.len() == items.len()
    &&& forall|i: int| 0 <= i < items.len() ==> (#[trigger] stock[i]).0@ == items[i].product_id@
        && stock[i].1 == items[i].qty
}

/// Which way a completed payment goes for the order linked to its session.
pub enum PaymentDecision {
    NotFound,
    AlreadyPaid,
    BadStatus,
    MissingAmount,
    AmountMismatch,
    MarkPaid,
}

/// The order behind an optional reference.
pub open spec fn order_value(order: Option<&Order>) -> Option<Order> {
    match order {
        Some(o) => Some(*o),
        None => None,
    }
}

/// The decision for a session paying `amount` and the order `order` linked to
/// it: only a pending order whose total is the amount paid is marked paid; a
/// paid order is left as it is.
pub open spec fn payment_decision(amount: Option<i64>, order: Option<Order>) -> PaymentDecision {
    match order {
        None => PaymentDecision::NotFound,
        Some(o) => if o.status@ == ORDER_STATUS_PAID@ {
            PaymentDecision::AlreadyPaid
        } else if o.status@ != ORDER_STATUS_PENDING@ {
            PaymentDecision::BadStatus
        } else {
            match amount {
                None => PaymentDecision::MissingAmount,
                Some(a) => if a != o.total_cents {
                    PaymentDecision::AmountMismatch
                } else {
                    PaymentDecision::MarkPaid
                },
            }
        },
    }
}

/// A repeated payment callback changes nothing. Once a callback has been
/// decided as "mark paid", the order carries the status that the mark-paid
/// query writes (`paid`); the same callback, or any other one for that order,
/// is then decided as "already paid", which neither writes the order again
/// nor takes stock a second time.
pub proof fn lemma_repeated_callback_changes_nothing(
    amount: Option<i64>,
    before: Order,
    after: Order,
    again: Option<i64>,
)
    requires
        payment_decision(amount, Some(before)) == PaymentDecision::MarkPaid,
        after.status@ == ORDER_STATUS_PAID@,
    ensures
        payment_decision(again, Some(after)) == PaymentDecision::AlreadyPaid,
{
}

/// Decides what a completed Checkout Session does to the order linked to it
/// (`order`, looked up by the session id):
/// - no order: an error;
/// - the order is already paid: nothing (a repeated callback succeeds again);
/// - the order is not pending: an error;
/// - the session has no amount, or an amount other than the order's total:
///   an error;
/// - otherwise: mark the order paid and take its line items out of stock.
pub fn payment_action(session: &CheckoutSessionInfo, order: Option<&Order>) -> (res: Result<PaymentAction, String>)
    ensures
        (res matches Ok(PaymentAction::AlreadyPaid))
            <==> payment_decision(session.amount_total, order_value(order)) == PaymentDecision::AlreadyPaid,
        (res matches Ok(PaymentAction::MarkPaid { .. }))
            <==> payment_decision(session.amount_total, order_value(order)) == PaymentDecision::MarkPaid,
        match order {
            None => res matches Err(e) && e@ == order_not_found_text(session.id@),
            Some(o) => if o.status@ == ORDER_STATUS_PAID@ {
                res matches Ok(PaymentAction::AlreadyPaid)
            } else if o.status@ != ORDER_STATUS_PENDING@ {
                res matches Err(e) && e@ == bad_status_text(o.status@, o.id@)
            } else {
                match session.amount_total {
                    None => res matches Err(e) && e@ == missing_amount_text(session.id@),
                    Some(a) => if a != o.total_cents {
                        res matches Err(e) && e@ == amount_mismatch_text(a, o.total_cents, o.id@)
                    } else {
                        res matches Ok(PaymentAction::MarkPaid { order_id, stock })
                            && order_id@ == o.id@ && stock_matches_items(o.items@, stock@)
                    },
                }
            },
        },
{
    let o = match order {
        None => {
            let mut e = owned("未找到关联订单: ");
            push_str(&mut e, session.id.as_str());
            return Err(e);
        },
        Some(o) => o,
    };
    if str_eq(o.status.as_str(), ORDER_STATUS_PAID) {
        return Ok(PaymentAction::AlreadyPaid);
    }
    if !str_eq(o.status.as_str(), ORDER_STATUS_PENDING) {
        let mut e = owned("订单状态异常（当前 ");
        push_str(&mut e, o.status.as_str());
        push_str(&mut e, "，期望 ");
        push_str(&mut e, ORDER_STATUS_PENDING);
        push_str(&mut e, "）: ");
        push_str(&mut e, o.id.as_str());
        assert(e@ =~= bad_status_text(o.status@, o.id@));
        return Err(e);
    }
    let amount = match session.amount_total {
        None => {
            let mut e = owned("回调缺少金额: ");
            push_str(&mut e, session.id.as_str());
            return Err(e);
        },
        Some(a) => a,
    };
    if amount != o.total_cents {
        let mut e = owned("金额不符（回调 ");
        push_signed_decimal(&mut e, amount);
        push_str(&mut e, "，订单 ");
        push_signed_decimal(&mut e, o.total_cents);
        push_str(&mut e, "）: ");
        push_str(&mut e, o.id.as_str());
        assert(e@ =~= amount_mismatch_text(amount, o.total_cents, o.id@));
        return Err(e);
    }
    let mut stock: Vec<(String, i64)> = Vec::new();
    let mut i: usize = 0;
    while i < o.items.len()
        invariant
            i <= o.items@.len(),
            stock@.len() == i,
            forall|j: int| 0 <= j < i ==> (#[trigger] stock@[j]).0@ == o.items@[j].product_id@
                && stock@[j].1 == o.items@[j].qty,
        decreases o.items@.len() - i,
    {
        let item = &o.items[i];
        stock.push((item.product_id.clone(), item.qty));
        i = i + 1;
    }
    Ok(PaymentAction::MarkPaid { order_id: o.id.clone(), stock })
}

} // verus!
