use mousuo::common::payment::{
    checkout_line, checkout_session_result, completed_session, payment_action, signature_error,
    webhook_secret_check, CheckoutSessionInfo, PaymentAction, WebhookEvent,
};
use mousuo::models::order::{Order, OrderItem};

fn order(status: &str, total: i64, items: Vec<OrderItem>) -> Order {
    Order {
        id: "order:abc".to_string(),
        user_id: "alice".to_string(),
        items,
        total_cents: total,
        status: status.to_string(),
        stripe_session_id: Some("cs_1".to_string()),
        paid_at: None,
        cancelled_at: None,
        created_at: "2024-05-01T10:00:00Z".to_string(),
    }
}

fn item(pid: &str, price: i64, qty: i64) -> OrderItem {
    OrderItem { product_id: pid.to_string(), title: "Mug".to_string(), price_cents: price, qty }
}

fn session(amount: Option<i64>) -> CheckoutSessionInfo {
    CheckoutSessionInfo { id: "cs_1".to_string(), amount_total: amount }
}

#[test]
fn marks_a_pending_order_paid_and_takes_its_stock() {
    let o = order("pending", 2499, vec![item("product:a", 2499, 1), item("product:b", 0, 2)]);
    match payment_action(&session(Some(2499)), Some(&o)) {
        Ok(PaymentAction::MarkPaid { order_id, stock }) => {
            assert_eq!(order_id, "order:abc");
            assert_eq!(stock, vec![("product:a".to_string(), 1), ("product:b".to_string(), 2)]);
        }
        _ => panic!("expected MarkPaid"),
    }
}

#[test]
fn repeated_callback_for_a_paid_order_changes_nothing() {
    let o = order("paid", 2499, vec![item("product:a", 2499, 1)]);
    assert!(matches!(payment_action(&session(Some(2499)), Some(&o)), Ok(PaymentAction::AlreadyPaid)));
    assert!(matches!(payment_action(&session(Some(1)), Some(&o)), Ok(PaymentAction::AlreadyPaid)));
}

#[test]
fn second_delivery_after_marking_paid_is_already_paid() {
    let mut o = order("pending", 2499, vec![item("product:a", 2499, 1)]);
    assert!(matches!(payment_action(&session(Some(2499)), Some(&o)), Ok(PaymentAction::MarkPaid { .. })));
    o.status = "paid".to_string();
    o.paid_at = Some("2024-05-01T10:05:00Z".to_string());
    assert!(matches!(payment_action(&session(Some(2499)), Some(&o)), Ok(PaymentAction::AlreadyPaid)));
}

#[test]
fn rejects_unknown_orders_and_bad_statuses() {
    assert_eq!(payment_action(&session(Some(1)), None).err(), Some("未找到关联订单: cs_1".to_string()));
    let o = order("cancelled", 2499, vec![]);
    assert_eq!(
        payment_action(&session(Some(2499)), Some(&o)).err(),
        Some("订单状态异常（当前 cancelled，期望 pending）: order:abc".to_string())
    );
}

#[test]
fn rejects_missing_or_wrong_amounts() {
    let o = order("pending", 2499, vec![item("product:a", 2499, 1)]);
    assert_eq!(payment_action(&session(None), Some(&o)).err(), Some("回调缺少金额: cs_1".to_string()));
    assert_eq!(
        payment_action(&session(Some(100)), Some(&o)).err(),
        Some("金额不符（回调 100，订单 2499）: order:abc".to_string())
    );
}

#[test]
fn only_completed_sessions_are_handled() {
    let ev = WebhookEvent { event_type: "checkout.session.completed".to_string(), checkout_session: Some(session(Some(1))) };
    assert_eq!(completed_session(&ev).map(|s| s.id.clone()), Some("cs_1".to_string()));
    let ev = WebhookEvent { event_type: "checkout.session.expired".to_string(), checkout_session: Some(session(Some(1))) };
    assert!(completed_session(&ev).is_none());
    let ev = WebhookEvent { event_type: "checkout.session.completed".to_string(), checkout_session: None };
    assert!(completed_session(&ev).is_none());
}

#[test]
fn checkout_line_uses_the_first_item() {
    let o = order("pending", 2499, vec![item("product:a", 2499, 0), item("product:b", 5, 3)]);
    let line = checkout_line("sk_test", &o).ok().unwrap();
    assert_eq!(line.name, "Mug");
    assert_eq!(line.unit_amount, 2499);
    assert_eq!(line.quantity, 1);
    let o = order("pending", 2499, vec![item("product:a", 2499, 3)]);
    assert_eq!(checkout_line("sk_test", &o).ok().unwrap().quantity, 3);
}

#[test]
fn checkout_line_errors() {
    let o = order("pending", 2499, vec![]);
    assert_eq!(checkout_line("", &o).err(), Some("支付通道未配置（STRIPE_SECRET_KEY 为空）".to_string()));
    assert_eq!(checkout_line("sk", &o).err(), Some("订单无条目，无法发起支付".to_string()));
    assert_eq!(checkout_session_result(None, "cs".to_string()).err(), Some("Stripe 未返回支付跳转链接".to_string()));
    assert_eq!(
        checkout_session_result(Some("https://pay".to_string()), "cs".to_string()).ok(),
        Some(("https://pay".to_string(), "cs".to_string()))
    );
}

#[test]
fn webhook_needs_a_secret() {
    assert!(webhook_secret_check("").is_err());
    assert!(webhook_secret_check("whsec").is_ok());
    assert_eq!(signature_error("bad"), "验签失败: bad");
}
