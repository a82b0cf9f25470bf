use mousuo::common::form::{error_message_key, query_param, safe_next};
use mousuo::common::login_guard::LoginGuard;

#[test]
fn finds_query_parameters() {
    assert_eq!(query_param("a=1&b=2", "b"), Some("2".to_string()));
    assert_eq!(query_param("a=1&a=2", "a"), Some("1".to_string()));
    assert_eq!(query_param("k=v=w", "k"), Some("v=w".to_string()));
    assert_eq!(query_param("x&b=", "b"), Some(String::new()));
    assert_eq!(query_param("ab=1", "a"), None);
    assert_eq!(query_param("a", "a"), None);
    assert_eq!(query_param("", "a"), None);
    assert_eq!(query_param("back=detail", "back"), Some("detail".to_string()));
}

#[test]
fn error_message_key_needs_an_allowed_code() {
    assert_eq!(error_message_key("error=stock&x=1", &["payment", "stock"]), Some("product_out_of_stock"));
    assert_eq!(error_message_key("x=1&error=payment", &["payment"]), Some("checkout_failed"));
    assert_eq!(error_message_key("error=stock", &["payment"]), None);
    assert_eq!(error_message_key("error=nope", &["nope"]), None);
    assert_eq!(error_message_key("x=1", &["payment"]), None);
    assert_eq!(error_message_key("error=invalid&error=stock", &["stock"]), None);
}

#[test]
fn safe_next_accepts_site_paths() {
    assert_eq!(safe_next("/zh/products/a"), Some("/zh/products/a".to_string()));
    assert_eq!(safe_next("/"), Some("/".to_string()));
    assert_eq!(safe_next("/a\\b"), Some("/a\\b".to_string()));
    assert_eq!(safe_next("/en/orders?page=2"), Some("/en/orders?page=2".to_string()));
}

#[test]
fn safe_next_rejects_open_redirects_and_control_characters() {
    assert_eq!(safe_next(""), None);
    assert_eq!(safe_next("//evil.example"), None);
    assert_eq!(safe_next("/\\evil.example"), None);
    assert_eq!(safe_next("https://evil.example"), None);
    assert_eq!(safe_next("/a~b"), None);
    assert_eq!(safe_next("/a\nb"), None);
    assert_eq!(safe_next("/a\rLocation: x"), None);
    assert_eq!(safe_next("/中文"), None);
}

#[test]
fn login_guard_redirects_only_visitors() {
    let g = LoginGuard;
    assert_eq!(g.path(), "/{locale}/orders");
    assert_eq!(g.handle(true, "en", "/en/orders"), None);
    assert_eq!(
        g.handle(false, "en", "/en/orders/order:1?result=success"),
        Some("/en/sign-in?next=/en/orders/order:1?result=success".to_string())
    );
}
