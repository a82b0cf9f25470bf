use mousuo::app::admin::orders::{
    date_or_dash, date_part, extra_item_count, item_summary, line_total, status_form_action,
    status_step, StatusStep,
};
use mousuo::app::admin::products::{
    product_action_url, product_save_step, toggle_label_key, toggle_step,
    toggled_product_status, validate_product, ProductForm, ProductFormValues, SaveStep, ToggleStep,
    FORM_ERROR_KEYS,
};
use mousuo::app::admin::upload::{upload_base, upload_done_url, upload_step, UploadStep};
use mousuo::models::order::{Order, OrderItem};
use mousuo::models::product::Product;

fn form(slug: &str, title: &str, description: &str, price: i64, stock: i64) -> ProductForm {
    ProductForm {
        slug: slug.to_string(),
        title: title.to_string(),
        description: description.to_string(),
        price_cents: price,
        stock,
        image: String::new(),
        csrf_token: "t".to_string(),
    }
}

#[test]
fn status_change_follows_the_state_machine() {
    match status_step("en", "order:1", Some("detail"), true, Some("paid"), "shipped") {
        StatusStep::Transition { from, to, ok_url, invalid_url } => {
            assert_eq!(from, "paid");
            assert_eq!(to, "shipped");
            assert_eq!(ok_url, "/en/admin/orders/order:1?ok=updated");
            assert_eq!(invalid_url, "/en/admin/orders/order:1?ok=invalid");
        }
        _ => panic!("expected a transition"),
    }
    match status_step("en", "order:1", None, true, Some("pending"), "shipped") {
        StatusStep::Redirect(u) => assert_eq!(u, "/en/admin/orders?ok=invalid"),
        _ => panic!("expected a redirect"),
    }
    match status_step("en", "order:1", Some("list"), true, None, "shipped") {
        StatusStep::Redirect(u) => assert_eq!(u, "/en/admin/orders?ok=invalid"),
        _ => panic!("expected a redirect"),
    }
    assert!(matches!(status_step("en", "order:1", None, false, Some("paid"), "shipped"), StatusStep::Forbidden));
}

#[test]
fn admin_order_row_texts() {
    let o = Order {
        id: "order:1".to_string(),
        user_id: "bob".to_string(),
        items: vec![
            OrderItem { product_id: "product:a".to_string(), title: "Mug".to_string(), price_cents: 250, qty: 2 },
            OrderItem { product_id: "product:b".to_string(), title: "Lamp".to_string(), price_cents: 100, qty: 1 },
        ],
        total_cents: 600,
        status: "paid".to_string(),
        stripe_session_id: None,
        paid_at: Some("2024-05-02T08:00:00Z".to_string()),
        cancelled_at: None,
        created_at: "2024-05-01T10:00:00Z".to_string(),
    };
    assert_eq!(item_summary(&o), Some("Mug × 2".to_string()));
    assert_eq!(extra_item_count(&o), 1);
    assert_eq!(date_part(&o.created_at), "2024-05-01");
    assert_eq!(date_or_dash(o.paid_at.as_deref()), "2024-05-02");
    assert_eq!(date_or_dash(None), "-");
    assert_eq!(date_part("2024"), "2024");
    assert_eq!(line_total(250, 2), 500);
    assert_eq!(status_form_action("en", "order:1", "list"), "/en/admin/orders/order:1/status?back=list");
}

#[test]
fn validates_product_forms() {
    assert_eq!(validate_product(&form("smart-watch", "Watch", "Nice", 100, 0), None, None), Ok(()));
    assert_eq!(validate_product(&form("Bad", "Watch", "Nice", 100, 0), None, None), Err("slug_invalid"));
    assert_eq!(validate_product(&form("ok-slug", " \t\u{3000}", "Nice", 100, 0), None, None), Err("title_invalid"));
    assert_eq!(validate_product(&form("ok-slug", "Watch", "\n", 100, 0), None, None), Err("description_invalid"));
    assert_eq!(validate_product(&form("ok-slug", "Watch", "Nice", 0, 0), None, None), Err("price_invalid"));
    assert_eq!(validate_product(&form("ok-slug", "Watch", "Nice", 1, -1), None, None), Err("stock_invalid"));
    assert_eq!(validate_product(&form("ok-slug", "Watch", "Nice", 1, 1), None, Some("product:x")), Err("slug_exists"));
    assert_eq!(validate_product(&form("ok-slug", "Watch", "Nice", 1, 1), Some("product:y"), Some("product:x")), Err("slug_exists"));
    assert_eq!(validate_product(&form("ok-slug", "Watch", "Nice", 1, 1), Some("product:x"), Some("product:x")), Ok(()));
    assert_eq!(FORM_ERROR_KEYS.len(), 8);
}

#[test]
fn toggles_product_status() {
    assert_eq!(toggled_product_status("active"), "off");
    assert_eq!(toggled_product_status("off"), "active");
    assert_eq!(toggled_product_status(toggled_product_status("active")), "active");
    assert_eq!(toggled_product_status("weird"), "active");
    assert_eq!(toggle_label_key("active"), "admin_product_off");
    assert_eq!(toggle_label_key("off"), "admin_product_on");
    match toggle_step("en", true, Some("active")) {
        ToggleStep::SetStatus { status, ok_url, invalid_url } => {
            assert_eq!(status, "off");
            assert_eq!(ok_url, "/en/admin/products?ok=status");
            assert_eq!(invalid_url, "/en/admin/products?ok=invalid");
        }
        _ => panic!("expected SetStatus"),
    }
    assert!(matches!(toggle_step("en", true, None), ToggleStep::Redirect(u) if u == "/en/admin/products?ok=invalid"));
    assert!(matches!(toggle_step("en", false, None), ToggleStep::Forbidden));
}

#[test]
fn product_save_redirects() {
    match product_save_step("en", None, true, Err("slug_exists")) {
        SaveStep::Redirect(u) => assert_eq!(u, "/en/admin/products/new?error=slug_exists"),
        _ => panic!("expected a redirect"),
    }
    match product_save_step("en", Some("product:1"), true, Ok(())) {
        SaveStep::Save { ok_url, failed_url } => {
            assert_eq!(ok_url, "/en/admin/products?ok=updated");
            assert_eq!(failed_url, "/en/admin/products/product:1/edit?error=update_failed");
        }
        _ => panic!("expected Save"),
    }
    match product_save_step("zh", None, true, Ok(())) {
        SaveStep::Save { ok_url, failed_url } => {
            assert_eq!(ok_url, "/zh/admin/products?ok=created");
            assert_eq!(failed_url, "/zh/admin/products/new?error=create_failed");
        }
        _ => panic!("expected Save"),
    }
    assert!(matches!(product_save_step("en", None, false, Ok(())), SaveStep::Forbidden));
    assert_eq!(product_action_url("en", "product:1", "delete"), "/en/admin/products/product:1/delete");
}

#[test]
fn product_form_values() {
    let e = ProductFormValues::empty();
    assert!(e.slug.is_empty() && e.title.is_empty() && e.image.is_empty());
    assert_eq!((e.price_cents, e.stock), (0, 0));
    let p = Product {
        id: "product:1".to_string(),
        slug: "mug".to_string(),
        title: "Mug".to_string(),
        description: "d".to_string(),
        price_cents: 10,
        stock: 2,
        image: None,
        status: "active".to_string(),
        created_at: "x".to_string(),
    };
    let v = ProductFormValues::from_product(p);
    assert_eq!(v.slug, "mug");
    assert_eq!(v.image, "");
    assert_eq!((v.price_cents, v.stock), (10, 2));
}

#[test]
fn upload_decisions() {
    let base = upload_base("en");
    assert_eq!(base, "/en/admin/upload");
    assert!(matches!(upload_step(&base, false, Some(1), 10, Some("png")), UploadStep::Forbidden));
    assert!(matches!(upload_step(&base, true, None, 10, Some("png")), UploadStep::Redirect(u) if u == "/en/admin/upload?error=upload_empty"));
    assert!(matches!(upload_step(&base, true, Some(0), 10, Some("png")), UploadStep::Redirect(u) if u == "/en/admin/upload?error=upload_empty"));
    assert!(matches!(upload_step(&base, true, Some(11), 10, Some("png")), UploadStep::Redirect(u) if u == "/en/admin/upload?error=upload_too_large"));
    assert!(matches!(upload_step(&base, true, Some(10), 10, None), UploadStep::Redirect(u) if u == "/en/admin/upload?error=upload_type"));
    assert!(matches!(upload_step(&base, true, Some(10), 10, Some("png")), UploadStep::Store { extension } if extension == "png"));
    assert_eq!(upload_done_url(&base, Some("/media/a.png"), true), "/en/admin/upload?ok=image&url=/media/a.png");
    assert_eq!(upload_done_url(&base, Some("/media/v/index.m3u8"), false), "/en/admin/upload?ok=video&url=/media/v/index.m3u8");
    assert_eq!(upload_done_url(&base, None, true), "/en/admin/upload?error=upload_failed");
}
