//! Admin product list, form and actions.

use vstd::prelude::*;
use crate::common::constant::{PRODUCT_STATUS_ACTIVE, PRODUCT_STATUS_OFF};
use crate::db::products::{slug_valid, valid_slug};
use crate::models::product::Product;
use crate::text::{is_blank, is_blank_text, opt_chars, owned, push_str, str_eq};

verus! {

/// Product form (create and edit).
pub struct ProductForm {
    pub slug: String,
    pub title: String,
    pub description: String,
    pub price_cents: i64,
    pub stock: i64,
    pub image: String,
    pub csrf_token: String,
}

/// A form that carries only the CSRF token (status toggle, delete).
pub struct CsrfForm {
    pub csrf_token: String,
}

/// Values shown in the product form.
pub struct ProductFormValues {
    pub slug: String,
    pub title: String,
    pub description: String,
    pub price_cents: i64,
    pub stock: i64,
    pub image: String,
}

/// Query of the admin product list.
pub struct AdminProductsQuery {
    pub page: Option<u64>,
}

/// The error codes the product form can come back with.
pub const FORM_ERROR_KEYS: [&'static str; 8] = [
    "slug_invalid",
    "slug_exists",
    "title_invalid",
    "description_invalid",
    "price_invalid",
    "stock_invalid",
    "create_failed",
    "update_failed",
];

/// The outcome of checking a product form: the first failing rule's error
/// code, in the order slug, title, description, price, stock, slug taken.
pub open spec fn product_form_check(form: ProductForm, editing_id: Option<Seq<char>>, existing_id: Option<Seq<char>>) -> Result<(), Seq<char>> {
    if !slug_valid(form.slug@) {
        Err("slug_invalid"@)
    } else if is_blank_text(form.title@) {
        Err("title_invalid"@)
    } else if is_blank_text(form.description@) {
        Err("description_invalid"@)
    } else if form.price_cents <= 0 {
        Err("price_invalid"@)
    } else if form.stock < 0 {
        Err("stock_invalid"@)
    } else if existing_id is Some && editing_id != existing_id {
        Err("slug_exists"@)
    } else {
        Ok(())
    }
}

/// The form is accepted exactly when every field rule holds (valid slug,
/// non-blank title and description, positive price, stock not negative) and
/// no product other than the one being edited uses the slug. A slug that no
/// product uses is never "taken", whether creating or editing; a slug used
/// only by the product being edited is not taken either.
pub proof fn lemma_product_form_rule(
    form: ProductForm,
    editing_id: Option<Seq<char>>,
    existing_id: Option<Seq<char>>,
)
    ensures
        product_form_check(form, editing_id, existing_id) is Ok <==> {
            &&& slug_valid(form.slug@)
            &&& !is_blank_text(form.title@)
            &&& !is_blank_text(form.description@)
            &&& form.price_cents > 0
            &&& form.stock >= 0
            &&& (existing_id is None || existing_id == editing_id)
        },
        (product_form_check(form, editing_id, existing_id) == Err::<(), Seq<char>>("slug_exists"@))
            <==> product_form_check(form, editing_id, None) is Ok && existing_id is Some
                && existing_id != editing_id,
        product_form_check(form, editing_id, None) == product_form_check(form, None, None),
        editing_id is Some ==> product_form_check(form, editing_id, editing_id)
            == product_form_check(form, None, None),
{
    reveal_strlit("slug_exists");
    reveal_strlit("slug_invalid");
    reveal_strlit("title_invalid");
    reveal_strlit("description_invalid");
    reveal_strlit("price_invalid");
    reveal_strlit("stock_invalid");
    assert("slug_exists"@.len() == 11);
    assert("slug_invalid"@.len() != 11 && "title_invalid"@.len() != 11);
    assert("description_invalid"@.len() != 11 && "price_invalid"@.len() != 11);
    assert("stock_invalid"@.len() != 11);
}

/// The rules are checked in a fixed order and the first one that fails names
/// the error: slug, title, description, price, stock, and only then whether
/// another product holds the slug.
pub proof fn lemma_product_form_first_error(
    form: ProductForm,
    editing_id: Option<Seq<char>>,
    existing_id: Option<Seq<char>>,
)
    ensures
        !slug_valid(form.slug@) ==> product_form_check(form, editing_id, existing_id)
            == Err::<(), Seq<char>>("slug_invalid"@),
        slug_valid(form.slug@) && is_blank_text(form.title@)
            ==> product_form_check(form, editing_id, existing_id) == Err::<(), Seq<char>>("title_invalid"@),
        slug_valid(form.slug@) && !is_blank_text(form.title@) && is_blank_text(form.description@)
            ==> product_form_check(form, editing_id, existing_id)
            == Err::<(), Seq<char>>("description_invalid"@),
        slug_valid(form.slug@) && !is_blank_text(form.title@) && !is_blank_text(form.description@)
            && form.price_cents <= 0
            ==> product_form_check(form, editing_id, existing_id) == Err::<(), Seq<char>>("price_invalid"@),
        slug_valid(form.slug@) && !is_blank_text(form.title@) && !is_blank_text(form.description@)
            && form.price_cents > 0 && form.stock < 0
            ==> product_form_check(form, editing_id, existing_id) == Err::<(), Seq<char>>("stock_invalid"@),
{
}

/// Checks a product form. `editing_id` is the product being edited (`None`
/// when creating) and `existing_id` the product that already uses the
/// form's slug, if any: the slug is taken unless that is the product being
/// edited.
pub fn validate_product(form: &ProductForm, editing_id: Option<&str>, existing_id: Option<&str>) -> (res: Result<(), &'static str>)
    ensures
        match (res, product_form_check(*form, opt_chars(editing_id), opt_chars(existing_id))) {
            (Ok(()), Ok(())) => true,
            (Err(k), Err(e)) => k@ == e,
            _ => false,
        },
{
    if !valid_slug(form.slug.as_str()) {
        return Err("slug_invalid");
    }
    if is_blank(form.title.as_str()) {
        return Err("title_invalid");
    }
    if is_blank(form.description.as_str()) {
        return Err("description_invalid");
    }
    if form.price_cents <= 0 {
        return Err("price_invalid");
    }
    if form.stock < 0 {
        return Err("stock_invalid");
    }
    if let Some(existing) = existing_id {
        let is_self = match editing_id {
            Some(id) => str_eq(id, existing),
            None => false,
        };
        if !is_self {
            return Err("slug_exists");
        }
    }
    Ok(())
}

/// The status a product toggles to: an active product goes off sale, any
/// other goes back on sale.
pub open spec fn toggled_status(status: Seq<char>) -> Seq<char> {
    if status == PRODUCT_STATUS_ACTIVE@ { PRODUCT_STATUS_OFF@ } else { PRODUCT_STATUS_ACTIVE@ }
}

/// The status an on/off toggle moves a product to.
pub fn toggled_product_status(status: &str) -> (res: &'static str)
    ensures
        res@ == toggled_status(status@),
{
    if str_eq(status, PRODUCT_STATUS_ACTIVE) { PRODUCT_STATUS_OFF } else { PRODUCT_STATUS_ACTIVE }
}

/// Toggling twice puts an active or off-sale product back where it was, and
/// a toggle always lands on one of the two statuses.
pub proof fn lemma_toggle_twice(status: Seq<char>)
    ensures
        toggled_status(status) == PRODUCT_STATUS_ACTIVE@ || toggled_status(status) == PRODUCT_STATUS_OFF@,
        status == PRODUCT_STATUS_ACTIVE@ || status == PRODUCT_STATUS_OFF@
            ==> toggled_status(toggled_status(status)) == status,
{
    reveal_strlit("active");
    reveal_strlit("off");
    assert(PRODUCT_STATUS_ACTIVE@[0] != PRODUCT_STATUS_OFF@[0]);
}

/// The i18n key of the toggle button: "take off sale" for an active product,
/// "put on sale" otherwise.
pub fn toggle_label_key(status: &str) -> (res: &'static str)
    ensures
        res@ == if status@ == PRODUCT_STATUS_ACTIVE@ { "admin_product_off"@ } else { "admin_product_on"@ },
{
    if str_eq(status, PRODUCT_STATUS_ACTIVE) { "admin_product_off" } else { "admin_product_on" }
}

/// `/{locale}/admin/products/{id}/{action}` (status, delete or edit).
pub fn product_action_url(locale: &str, product_id: &str, action: &str) -> (res: String)
    ensures
        res@ == seq!['/'] + locale@ + "/admin/products/"@ + product_id@ + seq!['/'] + action@,
{
    let mut s = owned("/");
    push_str(&mut s, locale);
    push_str(&mut s, "/admin/products/");
    push_str(&mut s, product_id);
    push_str(&mut s, "/");
    push_str(&mut s, action);
    proof {
        reveal_strlit("/");
    }
    assert(s@ =~= seq!['/'] + locale@ + "/admin/products/"@ + product_id@ + seq!['/'] + action@);
    s
}

/// `/{locale}/admin/products?ok={notice}`: the product list with a notice.
pub open spec fn products_notice_location(locale: Seq<char>, notice: Seq<char>) -> Seq<char> {
    seq!['/'] + locale + "/admin/products?ok="@ + notice
}

/// Builds `/{locale}/admin/products?ok={notice}`.
pub fn products_notice_url(locale: &str, notice: &str) -> (res: String)
    ensures
        res@ == products_notice_location(locale@, notice@),
{
    let mut s = owned("/");
    push_str(&mut s, locale);
    push_str(&mut s, "/admin/products?ok=");
    push_str(&mut s, notice);
    proof {
        reveal_strlit("/");
    }
    assert(s@ =~= products_notice_location(locale@, notice@));
    s
}

/// The form page a failed save returns to: `/{locale}/admin/products/new`
/// when creating, `/{locale}/admin/products/{id}/edit` when editing.
pub open spec fn product_form_location(locale: Seq<char>, product_id: Option<Seq<char>>) -> Seq<char> {
    match product_id {
        None => seq!['/'] + locale + "/admin/products/new"@,
        Some(id) => seq!['/'] + locale + "/admin/products/"@ + id + "/edit"@,
    }
}

fn product_form_url(locale: &str, product_id: Option<&str>) -> (res: String)
    ensures
        res@ == product_form_location(locale@, opt_chars(product_id)),
{
    let mut s = owned("/");
    push_str(&mut s, locale);
    match product_id {
        None => {
            push_str(&mut s, "/admin/products/new");
        },
        Some(id) => {
            push_str(&mut s, "/admin/products/");
            push_str(&mut s, id);
            push_str(&mut s, "/edit");
        },
    }
    proof {
        reveal_strlit("/");
    }
    assert(s@ =~= product_form_location(locale@, opt_chars(product_id)));
    s
}

/// What the create and update handlers do next.
pub enum SaveStep {
    /// The CSRF token does not match: refuse the request.
    Forbidden,
    /// The form did not validate: back to the form with the error.
    Redirect(String),
    /// Save the product; go to `ok_url` when it worked, `failed_url` when not.
    Save { ok_url: String, failed_url: String },
}

/// The save decision for the product form, given the outcome of
/// `validate_product`. `product_id` is the product being edited (`None` when
/// creating). A bad CSRF token is refused; a form error goes back to the form
/// with `?error={code}`; otherwise the product is saved, then the list shows
/// "created"/"updated", or the form shows "create_failed"/"update_failed".
pub fn product_save_step(locale: &str, product_id: Option<&str>, csrf_ok: bool, validation: Result<(), &str>) -> (res: SaveStep)
    ensures
        ({
            let form_page = product_form_location(locale@, opt_chars(product_id));
            if !csrf_ok {
                res is Forbidden
            } else {
                match validation {
                    Err(code) => res matches SaveStep::Redirect(u) && u@ == form_page + "?error="@ + code@,
                    Ok(()) => res matches SaveStep::Save { ok_url, failed_url }
                        && ok_url@ == products_notice_location(locale@, if product_id is None { "created"@ } else { "updated"@ })
                        && failed_url@ == form_page + "?error="@ + (if product_id is None { "create_failed"@ } else { "update_failed"@ }),
                }
            }
        }),
{
    if !csrf_ok {
        return SaveStep::Forbidden;
    }
    let mut form_page = product_form_url(locale, product_id);
    push_str(&mut form_page, "?error=");
    match validation {
        Err(code) => {
            push_str(&mut form_page, code);
            SaveStep::Redirect(form_page)
        },
        Ok(()) => {
            let creating = product_id.is_none();
            let ok_url = products_notice_url(locale, if creating { "created" } else { "updated" });
            push_str(&mut form_page, if creating { "create_failed" } else { "update_failed" });
            SaveStep::Save { ok_url, failed_url: form_page }
        },
    }
}

/// What the on/off toggle handler does next.
pub enum ToggleStep {
    /// The CSRF token does not match: refuse the request.
    Forbidden,
    /// The product was not found: back to the list with "invalid".
    Redirect(String),
    /// Set the product's status to `status`; then the list shows "status"
    /// (`ok_url`) when that worked and "invalid" (`invalid_url`) when not.
    SetStatus { status: &'static str, ok_url: String, invalid_url: String },
}

/// The toggle decision; `current` is the product's status, `None` when the
/// product was not found.
pub fn toggle_step(locale: &str, csrf_ok: bool, current: Option<&str>) -> (res: ToggleStep)
    ensures
        !csrf_ok ==> res is Forbidden,
        csrf_ok && current is None ==> (res matches ToggleStep::Redirect(u)
            && u@ == products_notice_location(locale@, "invalid"@)),
        csrf_ok && current is Some ==> (res matches ToggleStep::SetStatus { status, ok_url, invalid_url }
            && status@ == toggled_status(current->0@)
            && ok_url@ == products_notice_location(locale@, "status"@)
            && invalid_url@ == products_notice_location(locale@, "invalid"@)),
{
    if !csrf_ok {
        return ToggleStep::Forbidden;
    }
    let invalid_url = products_notice_url(locale, "invalid");
    match current {
        None => ToggleStep::Redirect(invalid_url),
        Some(c) => ToggleStep::SetStatus {
            status: toggled_product_status(c),
            ok_url: products_notice_url(locale, "status"),
            invalid_url,
        },
    }
}

impl ProductFormValues {
    /// The empty form of a new product.
    pub fn empty() -> (res: ProductFormValues)
        ensures
            res.slug@.len() == 0,
            res.title@.len() == 0,
            res.description@.len() == 0,
            res.price_cents == 0,
            res.stock == 0,
            res.image@.len() == 0,
    {
        ProductFormValues {
            slug: String::new(),
            title: String::new(),
            description: String::new(),
            price_cents: 0,
            stock: 0,
            image: String::new(),
        }
    }

    /// The form of an existing product; no image shows as an empty field.
    pub fn from_product(p: Product) -> (res: ProductFormValues)
        ensures
            res.slug == p.slug,
            res.title == p.title,
            res.description == p.description,
            res.price_cents == p.price_cents,
            res.stock == p.stock,
            res.image@ == match p.image {
                Some(i) => i@,
                None => Seq::<char>::empty(),
            },
    {
        let image = match p.image {
            Some(i) => i,
            None => String::new(),
        };
        ProductFormValues {
            slug: p.slug,
            title: p.title,
            description: p.description,
            price_cents: p.price_cents,
            stock: p.stock,
            image,
        }
    }
}

} // verus!
