use mousuo::common::constant::error_i18n_key;
use mousuo::common::format::format_cents;
use mousuo::components::product_card::{low_stock_text, stock_level, StockLevel};

#[test]
fn formats_cents_as_dollars() {
    assert_eq!(format_cents(1299), "$12.99");
    assert_eq!(format_cents(0), "$0.00");
    assert_eq!(format_cents(5), "$0.05");
    assert_eq!(format_cents(100), "$1.00");
    assert_eq!(format_cents(123456), "$1234.56");
}

#[test]
fn formats_negative_cents_with_minus_sign() {
    assert_eq!(format_cents(-5), "-$0.05");
    assert_eq!(format_cents(-1299), "-$12.99");
    assert_eq!(format!("-{}", format_cents(4321)), format_cents(-4321));
}

#[test]
fn formats_extreme_amounts() {
    assert_eq!(format_cents(i64::MAX), "$92233720368547758.07");
    assert_eq!(format_cents(i64::MIN), "-$92233720368547758.08");
}

#[test]
fn maps_error_codes_to_i18n_keys() {
    assert_eq!(error_i18n_key("captcha"), Some("captcha_invalid"));
    assert_eq!(error_i18n_key("stock"), Some("product_out_of_stock"));
    assert_eq!(error_i18n_key("upload_type"), Some("admin_upload_type_invalid"));
    assert_eq!(error_i18n_key("upload_failed"), Some("admin_upload_failed"));
    assert_eq!(error_i18n_key("unknown"), None);
    assert_eq!(error_i18n_key(""), None);
}

#[test]
fn low_stock_text_fills_in_the_count() {
    assert_eq!(low_stock_text("仅剩 {stock} 件", 3), "仅剩 3 件");
    assert_eq!(low_stock_text("Only {stock} left", 12), "Only 12 left");
    assert_eq!(low_stock_text("{stock}/{stock}", -2), "-2/-2");
    assert_eq!(low_stock_text("Low stock", 1), "Low stock");
    assert_eq!(low_stock_text("{stoc}", 1), "{stoc}");
}

#[test]
fn stock_badge_levels() {
    assert_eq!(stock_level(0), StockLevel::OutOfStock);
    assert_eq!(stock_level(1), StockLevel::Low);
    assert_eq!(stock_level(5), StockLevel::Low);
    assert_eq!(stock_level(6), StockLevel::InStock);
    assert_eq!(stock_level(-1), StockLevel::Low);
}
