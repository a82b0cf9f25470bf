use mousuo::app::checkout::{checkout_step, payment_return_urls, CheckoutStep};
use mousuo::models::product::Product;

fn product(status: &str, stock: i64) -> Product {
    Product {
        id: "product:p1".to_string(),
        slug: "smart-watch".to_string(),
        title: "Smart Watch S2".to_string(),
        description: "d".to_string(),
        price_cents: 12999,
        stock,
        image: None,
        status: status.to_string(),
        created_at: "2024-01-01".to_string(),
    }
}

fn redirect_of(step: CheckoutStep) -> String {
    match step {
        CheckoutStep::Redirect(u) => u,
        _ => panic!("expected a redirect"),
    }
}

#[test]
fn checkout_refuses_bad_csrf() {
    let p = product("active", 3);
    assert!(matches!(checkout_step("en", false, Some(&p), Some("alice"), ""), CheckoutStep::Forbidden));
}

#[test]
fn checkout_redirects_on_product_problems() {
    assert_eq!(redirect_of(checkout_step("en", true, None, Some("alice"), "")), "/en/products?error=invalid");
    let off = product("off", 3);
    assert_eq!(redirect_of(checkout_step("en", true, Some(&off), Some("alice"), "")), "/en/products/smart-watch?error=invalid");
    let empty = product("active", 0);
    assert_eq!(redirect_of(checkout_step("zh", true, Some(&empty), Some("alice"), "")), "/zh/products/smart-watch?error=stock");
}

#[test]
fn checkout_sends_visitors_to_sign_in() {
    let p = product("active", 3);
    assert_eq!(
        redirect_of(checkout_step("en", true, Some(&p), None, "/en/products/smart-watch?x=1")),
        "/en/sign-in?next=/en/products/smart-watch?x=1"
    );
    assert_eq!(
        redirect_of(checkout_step("en", true, Some(&p), None, "//evil.example")),
        "/en/sign-in?next=/en/products/smart-watch"
    );
}

#[test]
fn checkout_places_a_single_item_order() {
    let p = product("active", 3);
    match checkout_step("en", true, Some(&p), Some("alice"), "") {
        CheckoutStep::PlaceOrder { username, items, total_cents, detail_url } => {
            assert_eq!(username, "alice");
            assert_eq!(items.len(), 1);
            assert_eq!(items[0].product_id, "product:p1");
            assert_eq!(items[0].title, "Smart Watch S2");
            assert_eq!(items[0].price_cents, 12999);
            assert_eq!(items[0].qty, 1);
            assert_eq!(total_cents, 12999);
            assert_eq!(detail_url, "/en/products/smart-watch");
        }
        _ => panic!("expected PlaceOrder"),
    }
}

#[test]
fn payment_return_pages() {
    let (ok, cancel) = payment_return_urls("https", "shop.example", "en", "order:1");
    assert_eq!(ok, "https://shop.example/en/orders/order:1?result=success");
    assert_eq!(cancel, "https://shop.example/en/orders/order:1?result=cancel");
}
