//! Status codes, limits and the table of error codes shown to users.

use vstd::prelude::*;
use crate::text::str_eq;

verus! {

/// Account status: waiting for activation.
pub const USER_STATUS_PENDING: u8 = 0;
/// Account status: active.
pub const USER_STATUS_ACTIVE: u8 = 1;
/// Account status: banned.
pub const USER_STATUS_BANNED: u8 = 2;

/// Captcha lifetime in seconds.
pub const CAPTCHA_EXPIRY: u64 = 300;

/// Password reset link lifetime in seconds.
pub const PASSWORD_RESET_EXPIRY: u64 = 3600;

/// Product status: on sale.
pub const PRODUCT_STATUS_ACTIVE: &'static str = "active";
/// Product status: taken off sale.
pub const PRODUCT_STATUS_OFF: &'static str = "off";
/// Low-stock threshold: a stock at or below this shows the low-stock badge.
pub const PRODUCT_LOW_STOCK_THRESHOLD: i64 = 5;

/// Order status: waiting for payment.
pub const ORDER_STATUS_PENDING: &'static str = "pending";
/// Order status: paid.
pub const ORDER_STATUS_PAID: &'static str = "paid";
/// Order status: shipped.
pub const ORDER_STATUS_SHIPPED: &'static str = "shipped";
/// Order status: completed.
pub const ORDER_STATUS_COMPLETED: &'static str = "completed";
/// Order status: cancelled.
pub const ORDER_STATUS_CANCELLED: &'static str = "cancelled";

/// Administrator flag value of `user.is_admin`.
pub const USER_IS_ADMIN: u8 = 1;

/// The i18n key of each business error code, `None` for an unknown code.
pub open spec fn error_key_for(err: Seq<char>) -> Option<Seq<char>> {
    if err == "captcha"@ { Some("captcha_invalid"@) }
    else if err == "incorrect"@ { Some("sign_in_incorrect"@) }
    else if err == "not_activation"@ { Some("sign_in_not_activation"@) }
    else if err == "banned"@ { Some("sign_in_banned"@) }
    else if err == "security"@ { Some("sign_in_security_problem"@) }
    else if err == "password_weak"@ { Some("register_password_weak"@) }
    else if err == "password_mismatch"@ { Some("register_password_mismatch"@) }
    else if err == "exist"@ { Some("register_exist"@) }
    else if err == "payment"@ { Some("checkout_failed"@) }
    else if err == "invalid"@ { Some("checkout_invalid"@) }
    else if err == "stock"@ { Some("product_out_of_stock"@) }
    else if err == "slug_invalid"@ { Some("admin_form_slug_invalid"@) }
    else if err == "slug_exists"@ { Some("admin_form_slug_exists"@) }
    else if err == "title_invalid"@ { Some("admin_form_title_invalid"@) }
    else if err == "description_invalid"@ { Some("admin_form_description_invalid"@) }
    else if err == "price_invalid"@ { Some("admin_form_price_invalid"@) }
    else if err == "stock_invalid"@ { Some("admin_form_stock_invalid"@) }
    else if err == "create_failed"@ { Some("admin_form_create_failed"@) }
    else if err == "update_failed"@ { Some("admin_form_update_failed"@) }
    else if err == "upload_empty"@ { Some("admin_upload_empty"@) }
    else if err == "upload_too_large"@ { Some("admin_upload_too_large"@) }
    else if err == "upload_type"@ { Some("admin_upload_type_invalid"@) }
    else if err == "upload_failed"@ { Some("admin_upload_failed"@) }
    else { None }
}

/// Maps a business error code to its i18n key.
pub fn error_i18n_key(err: &str) -> (res: Option<&'static str>)
    ensures
        match res {
            Some(k) => error_key_for(err@) == Some(k@),
            None => error_key_for(err@) is None,
        },
{
    if str_eq(err, "captcha") { Some("captcha_invalid") }
    else if str_eq(err, "incorrect") { Some("sign_in_incorrect") }
    else if str_eq(err, "not_activation") { Some("sign_in_not_activation") }
    else if str_eq(err, "banned") { Some("sign_in_banned") }
    else if str_eq(err, "security") { Some("sign_in_security_problem") }
    else if str_eq(err, "password_weak") { Some("register_password_weak") }
    else if str_eq(err, "password_mismatch") { Some("register_password_mismatch") }
    else if str_eq(err, "exist") { Some("register_exist") }
    else if str_eq(err, "payment") { Some("checkout_failed") }
    else if str_eq(err, "invalid") { Some("checkout_invalid") }
    else if str_eq(err, "stock") { Some("product_out_of_stock") }
    else if str_eq(err, "slug_invalid") { Some("admin_form_slug_invalid") }
    else if str_eq(err, "slug_exists") { Some("admin_form_slug_exists") }
    else if str_eq(err, "title_invalid") { Some("admin_form_title_invalid") }
    else if str_eq(err, "description_invalid") { Some("admin_form_description_invalid") }
    else if str_eq(err, "price_invalid") { Some("admin_form_price_invalid") }
    else if str_eq(err, "stock_invalid") { Some("admin_form_stock_invalid") }
    else if str_eq(err, "create_failed") { Some("admin_form_create_failed") }
    else if str_eq(err, "update_failed") { Some("admin_form_update_failed") }
    else if str_eq(err, "upload_empty") { Some("admin_upload_empty") }
    else if str_eq(err, "upload_too_large") { Some("admin_upload_too_large") }
    else if str_eq(err, "upload_type") { Some("admin_upload_type_invalid") }
    else if str_eq(err, "upload_failed") { Some("admin_upload_failed") }
    else { None }
}

} // verus!
