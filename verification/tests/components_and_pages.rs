use mousuo::app::orders::{banner_key, can_view_order, order_banner, order_href, retry_url, shows_retry, OrderBanner};
use mousuo::app::products::{grid_base_url, search_term};
use mousuo::app::requested_page;
use mousuo::app::users::{shows_email, user_status_badge};
use mousuo::components::admin_nav::{admin_nav_class, admin_nav_href, admin_nav_items, ADMIN_NAV_ACTIVE, ADMIN_NAV_IDLE};
use mousuo::components::badge::BadgeVariant;
use mousuo::components::button::{ButtonSize, ButtonVariant};
use mousuo::components::order_badge::{status_badge_style, status_text_key, StatusBadgeStyle};
use mousuo::components::product_card::product_href;
use mousuo::models::product::Product;

fn product(status: &str) -> Product {
    Product {
        id: "product:1".to_string(),
        slug: "mug".to_string(),
        title: "Mug".to_string(),
        description: "d".to_string(),
        price_cents: 10,
        stock: 2,
        image: None,
        status: status.to_string(),
        created_at: "x".to_string(),
    }
}

#[test]
fn order_status_keys_and_badges() {
    assert_eq!(status_text_key("pending"), "order_status_pending");
    assert_eq!(status_text_key("paid"), "order_status_paid");
    assert_eq!(status_text_key("shipped"), "order_status_shipped");
    assert_eq!(status_text_key("completed"), "order_status_completed");
    assert_eq!(status_text_key("cancelled"), "order_status_cancelled");
    assert_eq!(status_text_key("whatever"), "order_status_pending");
    assert_eq!(status_badge_style("paid"), StatusBadgeStyle::Badge(BadgeVariant::Primary));
    assert_eq!(status_badge_style("cancelled"), StatusBadgeStyle::Badge(BadgeVariant::Destructive));
    assert_eq!(status_badge_style("shipped"), StatusBadgeStyle::Badge(BadgeVariant::Secondary));
    assert_eq!(status_badge_style("completed"), StatusBadgeStyle::Badge(BadgeVariant::Secondary));
    assert_eq!(status_badge_style("pending"), StatusBadgeStyle::Warning);
}

#[test]
fn style_classes() {
    assert_eq!(BadgeVariant::default(), BadgeVariant::Primary);
    assert_eq!(BadgeVariant::Outline.classes(), "border-border text-foreground");
    assert_eq!(ButtonVariant::default(), ButtonVariant::Primary);
    assert_eq!(ButtonSize::default(), ButtonSize::Md);
    assert_eq!(ButtonSize::Sm.classes(), "h-8 gap-1.5 rounded-md px-3");
    assert_eq!(ButtonVariant::Quiet.classes(), "border-transparent text-foreground hover:bg-foreground/5 active:bg-foreground/10");
}

#[test]
fn admin_navigation() {
    let items = admin_nav_items();
    assert_eq!(items[0], ("orders", "admin_orders"));
    assert_eq!(items[3], ("upload", "admin_upload"));
    assert_eq!(admin_nav_class("orders", "orders"), ADMIN_NAV_ACTIVE);
    assert_eq!(admin_nav_class("users", "orders"), ADMIN_NAV_IDLE);
    assert_eq!(admin_nav_href("zh", "products"), "/zh/admin/products");
}

#[test]
fn order_page_banner_and_retry() {
    assert_eq!(order_banner("success", "paid"), OrderBanner::PaymentSuccess);
    assert_eq!(order_banner("cancel", "pending"), OrderBanner::PaymentCancel);
    assert_eq!(order_banner("", "pending"), OrderBanner::Processing);
    assert_eq!(order_banner("", "paid"), OrderBanner::Nothing);
    assert_eq!(banner_key(OrderBanner::PaymentSuccess), Some("payment_success"));
    assert_eq!(banner_key(OrderBanner::Nothing), None);
    assert!(shows_retry("cancelled", ""));
    assert!(shows_retry("pending", "cancel"));
    assert!(!shows_retry("paid", "success"));
    assert_eq!(retry_url("en", Some(&product("active"))), "/en/products/mug");
    assert_eq!(retry_url("en", Some(&product("off"))), "/en/products");
    assert_eq!(retry_url("en", None), "/en/products");
    assert_eq!(order_href("en", "order:1"), "/en/orders/order:1");
    assert_eq!(product_href("en", "mug"), "/en/products/mug");
}

#[test]
fn order_pages_are_private() {
    let o = mousuo::models::order::Order {
        id: "order:1".to_string(),
        user_id: "alice".to_string(),
        items: vec![],
        total_cents: 0,
        status: "paid".to_string(),
        stripe_session_id: None,
        paid_at: None,
        cancelled_at: None,
        created_at: "x".to_string(),
    };
    assert!(can_view_order(Some(&o), "alice"));
    assert!(!can_view_order(Some(&o), "bob"));
    assert!(!can_view_order(None, "alice"));
}

#[test]
fn product_search_terms() {
    assert_eq!(search_term("  Mug \t"), Some("Mug".to_string()));
    assert_eq!(search_term(" a b "), Some("a b".to_string()));
    assert_eq!(search_term("x"), Some("x".to_string()));
    assert_eq!(search_term("\u{3000} \n"), None);
    assert_eq!(search_term(""), None);
    assert_eq!(grid_base_url("en", Some("mug")), "/en/products?q=mug");
    assert_eq!(grid_base_url("en", None), "/en/products");
}

#[test]
fn list_pages_start_at_one() {
    assert_eq!(requested_page(None), 1);
    assert_eq!(requested_page(Some(0)), 1);
    assert_eq!(requested_page(Some(7)), 7);
}

#[test]
fn user_profile_badges() {
    assert_eq!(user_status_badge(2).0, "user_status_banned");
    assert_eq!(user_status_badge(2).1, StatusBadgeStyle::Badge(BadgeVariant::Destructive));
    assert_eq!(user_status_badge(1).0, "user_status_active");
    assert_eq!(user_status_badge(0).0, "user_status_pending");
    assert_eq!(user_status_badge(9).1, StatusBadgeStyle::Warning);
    assert!(shows_email(Some("alice"), "alice"));
    assert!(!shows_email(Some("bob"), "alice"));
    assert!(!shows_email(None, "alice"));
}
