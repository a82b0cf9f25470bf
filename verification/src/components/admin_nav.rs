//! The admin sub-navigation (orders / users / products / upload).

use vstd::prelude::*;
use crate::text::{owned, push_str, str_eq};

verus! {

/// Class of the link to the section being shown.
pub const ADMIN_NAV_ACTIVE: &'static str = "px-3 py-1.5 text-sm rounded-md font-medium no-underline bg-primary text-primary-foreground";
/// Class of the links to the other sections.
pub const ADMIN_NAV_IDLE: &'static str = "px-3 py-1.5 text-sm rounded-md no-underline text-foreground hover:bg-muted";

/// The sections of the admin navigation, in order: (path segment, i18n key).
pub fn admin_nav_items() -> (res: [(&'static str, &'static str); 4])
    ensures
        res[0].0@ == "orders"@ && res[0].1@ == "admin_orders"@,
        res[1].0@ == "users"@ && res[1].1@ == "admin_users"@,
        res[2].0@ == "products"@ && res[2].1@ == "admin_products"@,
        res[3].0@ == "upload"@ && res[3].1@ == "admin_upload"@,
{
    [
        ("orders", "admin_orders"),
        ("users", "admin_users"),
        ("products", "admin_products"),
        ("upload", "admin_upload"),
    ]
}

/// The class of a navigation link: highlighted exactly when it is the
/// active section.
pub fn admin_nav_class(key: &str, active: &str) -> (res: &'static str)
    ensures
        res@ == if key@ == active@ { ADMIN_NAV_ACTIVE@ } else { ADMIN_NAV_IDLE@ },
{
    if str_eq(key, active) { ADMIN_NAV_ACTIVE } else { ADMIN_NAV_IDLE }
}

/// The link of a section: `/{locale}/admin/{key}`.
pub fn admin_nav_href(locale: &str, key: &str) -> (res: String)
    ensures
        res@ == seq!['/'] + locale@ + "/admin/"@ + key@,
{
    let mut s = owned("/");
    push_str(&mut s, locale);
    push_str(&mut s, "/admin/");
    push_str(&mut s, key);
    proof {
        reveal_strlit("/");
    }
    assert(s@ =~= seq!['/'] + locale@ + "/admin/"@ + key@);
    s
}

} // verus!
