//! Product queries and slug validation.

use vstd::prelude::*;
use crate::common::constant::PRODUCT_STATUS_ACTIVE;
use crate::db::{
    DbQuery, QueryParam, QueryValue, int_param, is_int_param, is_new_record_id, is_record_param,
    is_text_param, lemma_new_record_id_round_trip, new_record_id, page_start, parse_simple_result,
    plain_table, record_id, text_param, by_record_id,
};
use crate::text::{owned, push_str};

verus! {

/// A character allowed in a slug: lowercase ASCII letter, digit or `-`.
pub open spec fn is_slug_char(c: char) -> bool {
    ('a' <= c && c <= 'z') || ('0' <= c && c <= '9') || c == '-'
}

/// A valid slug: 2 to 64 characters, all lowercase letters, digits or
/// hyphens, not starting or ending with a hyphen.
pub open spec fn slug_valid(s: Seq<char>) -> bool {
    &&& 2 <= s.len() <= 64
    &&& s[0] != '-'
    &&& s[s.len() - 1] != '-'
    &&& forall|i: int| 0 <= i < s.len() ==> is_slug_char(#[trigger] s[i])
}

/// Checks a product slug. The length bound is on bytes, which for a slug
/// (all ASCII) is its number of characters.
pub fn valid_slug(slug: &str) -> (res: bool)
    ensures
        res == slug_valid(slug@),
{
    let len = slug.len();
    if !(2 <= len && len <= 64) {
        proof {
            if slug_valid(slug@) {
                vstd::utf8::is_ascii_chars_encode_utf8(slug@);
            }
        }
        return false;
    }
    let n = slug.unicode_len();
    let mut i: usize = 0;
    while i < n
        invariant
            n == slug@.len(),
            i <= n,
            forall|j: int| 0 <= j < i ==> is_slug_char(#[trigger] slug@[j]),
        decreases n - i,
    {
        let c = slug.get_char(i);
        if !(('a' <= c && c <= 'z') || ('0' <= c && c <= '9') || c == '-') {
            return false;
        }
        i = i + 1;
    }
    proof {
        assert(vstd::utf8::is_ascii_chars(slug@));
        vstd::utf8::is_ascii_chars_encode_utf8(slug@);
    }
    let first = slug.get_char(0);
    let last = slug.get_char(n - 1);
    first != '-' && last != '-'
}

/// The slug rule as documented: exactly the texts of 2 to 64 characters,
/// each a lowercase ASCII letter, an ASCII digit or a hyphen, whose first and
/// last characters are not hyphens. A slug may start or end with a digit.
pub proof fn lemma_slug_rule(s: Seq<char>)
    ensures
        slug_valid(s) <==> {
            &&& 2 <= s.len() <= 64
            &&& s[0] != '-' && s[s.len() - 1] != '-'
            &&& forall|i: int| #![trigger s[i]] 0 <= i < s.len()
                ==> ('a' <= s[i] <= 'z') || ('0' <= s[i] <= '9') || s[i] == '-'
        },
{
}

/// Changing one inner character of a valid slug to any other lowercase
/// letter, digit or hyphen, or its first or last character to a letter or a
/// digit, leaves it valid.
pub proof fn lemma_slug_char_swap(s: Seq<char>, i: int, c: char)
    requires
        slug_valid(s),
        0 <= i < s.len(),
        ('a' <= c <= 'z') || ('0' <= c <= '9') || (c == '-' && 0 < i < s.len() - 1),
    ensures
        slug_valid(s.update(i, c)),
{
    assert forall|j: int| 0 <= j < s.len() implies is_slug_char(#[trigger] s.update(i, c)[j]) by {
        if j != i {
            assert(is_slug_char(s[j]));
        }
    }
}

/// What `str::to_lowercase` makes of a text (Unicode lowercase mapping; the
/// result depends on the text alone).
pub uninterp spec fn lowercase_text(s: Seq<char>) -> Seq<char>;

/// `str::to_lowercase`. Its result is named `lowercase_text`; the Unicode
/// case mapping itself is left unsaid.
#[verifier::external_body]
fn to_lowercase(s: &str) -> (res: String)
    ensures
        res@ == lowercase_text(s@),
{
    s.to_lowercase()
}

/// The search the product list filters on: a non-empty search text.
pub open spec fn search_filter(search: Option<&str>) -> Option<Seq<char>> {
    match search {
        Some(q) => if q@.len() > 0 { Some(q@) } else { None },
        None => None,
    }
}

/// Every non-empty search text, one character long or more, filters the
/// list: the condition gains the title clause and `$search` is the lowercased
/// text. An empty or absent search lists every product on sale.
pub proof fn lemma_search_filter_rule(search: Option<&str>, params: Seq<QueryParam>)
    ensures
        match search {
            Some(q) => q@.len() > 0 ==> {
                &&& search_filter(search) == Some(q@)
                &&& where_text(search_filter(search) is Some)
                    == " WHERE status = $status AND string::lowercase(title) CONTAINS $search"@
                &&& where_params(params, search_filter(search)) ==> params.len() == 2
                    && is_text_param(params[0], "status"@, "active"@)
                    && is_text_param(params[1], "search"@, lowercase_text(q@))
            },
            None => true,
        },
        (match search { Some(q) => q@.len() == 0, None => true }) ==> {
            &&& search_filter(search) is None
            &&& where_text(search_filter(search) is Some) == " WHERE status = $status"@
            &&& where_params(params, search_filter(search)) ==> params.len() == 1
                && is_text_param(params[0], "status"@, "active"@)
        },
{
    assert(" WHERE "@ + "status = $status"@ + " AND "@ + "string::lowercase(title) CONTAINS $search"@
        =~= " WHERE status = $status AND string::lowercase(title) CONTAINS $search"@) by {
        reveal_strlit(" WHERE ");
        reveal_strlit("status = $status");
        reveal_strlit(" AND ");
        reveal_strlit("string::lowercase(title) CONTAINS $search");
        reveal_strlit(" WHERE status = $status AND string::lowercase(title) CONTAINS $search");
    }
    assert(" WHERE "@ + "status = $status"@ =~= " WHERE status = $status"@) by {
        reveal_strlit(" WHERE ");
        reveal_strlit("status = $status");
        reveal_strlit(" WHERE status = $status");
    }
}

/// The condition of the product list: on sale only, and when searching,
/// titles whose lowercase form contains the lowercased search.
pub open spec fn where_text(searching: bool) -> Seq<char> {
    if searching {
        " WHERE "@ + "status = $status"@ + " AND "@ + "string::lowercase(title) CONTAINS $search"@
    } else {
        " WHERE "@ + "status = $status"@
    }
}

/// The parameters of `where_text`: `$status` is "active", and `$search`
/// the lowercased search when searching.
pub open spec fn where_params(params: Seq<QueryParam>, search: Option<Seq<char>>) -> bool {
    &&& params.len() == if search is Some { 2int } else { 1int }
    &&& is_text_param(params[0], "status"@, PRODUCT_STATUS_ACTIVE@)
    &&& search is Some ==> is_text_param(params[1], "search"@, lowercase_text(search->0))
}

/// The condition and parameters that list only products on sale, optionally
/// searched by title. The search ignores case: both sides are lowercased,
/// and the title must contain the search.
pub fn build_where(search: Option<&str>) -> (res: (String, Vec<QueryParam>))
    ensures
        res.0@ == where_text(search_filter(search) is Some),
        where_params(res.1@, search_filter(search)),
{
    let mut clause = owned(" WHERE ");
    push_str(&mut clause, "status = $status");
    let mut params: Vec<QueryParam> = Vec::new();
    params.push(text_param("status", PRODUCT_STATUS_ACTIVE));
    if let Some(q) = search {
        if !q.is_empty() {
            push_str(&mut clause, " AND ");
            push_str(&mut clause, "string::lowercase(title) CONTAINS $search");
            let lower = to_lowercase(q);
            params.push(QueryParam { name: "search", value: QueryValue::Text(lower) });
        }
    }
    assert(clause@ =~= where_text(search_filter(search) is Some));
    (clause, params)
}

/// Page `page` (from 1) of the products on sale, optionally searched, newest
/// first.
pub fn list_products_query(search: Option<&str>, page: u64, page_size: u64) -> (res: DbQuery)
    requires
        page >= 1,
        (page - 1) * page_size <= u64::MAX,
    ensures
        res.sql@ == "SELECT * FROM product"@ + where_text(search_filter(search) is Some)
            + " ORDER BY created_at DESC, id LIMIT $limit START $start"@,
        ({
            let n = res.params@.len() - 2;
            &&& res.params@.len() >= 2
            &&& where_params(res.params@.take(n), search_filter(search))
            &&& is_int_param(res.params@[n], "limit"@, (page_size as i64) as int)
            &&& is_int_param(res.params@[n + 1], "start"@, ((page - 1) * page_size) as i64 as int)
        }),
{
    let (clause, mut params) = build_where(search);
    let ghost before = params@;
    params.push(int_param("limit", page_size as i64));
    params.push(int_param("start", page_start(page, page_size)));
    let mut sql = owned("SELECT * FROM product");
    push_str(&mut sql, clause.as_str());
    push_str(&mut sql, " ORDER BY created_at DESC, id LIMIT $limit START $start");
    assert(params@.take(before.len() as int) =~= before);
    DbQuery { sql, params }
}

/// The number of products on sale, optionally searched.
pub fn count_products_query(search: Option<&str>) -> (res: DbQuery)
    ensures
        res.sql@ == "SELECT count() FROM product"@ + where_text(search_filter(search) is Some) + " GROUP ALL"@,
        where_params(res.params@, search_filter(search)),
{
    let (clause, params) = build_where(search);
    let mut sql = owned("SELECT count() FROM product");
    push_str(&mut sql, clause.as_str());
    push_str(&mut sql, " GROUP ALL");
    DbQuery { sql, params }
}

pub const PRODUCT_BY_SLUG_SQL: &'static str = "SELECT * FROM product WHERE slug = $slug AND status = $status";
pub const PRODUCT_BY_SLUG_ANY_SQL: &'static str = "SELECT * FROM product WHERE slug = $slug";
pub const LIST_ALL_PRODUCTS_SQL: &'static str = "SELECT * FROM product ORDER BY created_at DESC, id LIMIT $limit START $start";
pub const COUNT_ALL_PRODUCTS_SQL: &'static str = "SELECT count() FROM product GROUP ALL";
pub const SLUG_EXISTS_SQL: &'static str = "SELECT id FROM product WHERE slug = $slug";
pub const CREATE_PRODUCT_SQL: &'static str = "CREATE product CONTENT { id: $id, slug: $slug, title: $title, description: $description, price_cents: $price, stock: $stock, image: $image, status: $status, created_at: time::now() }";
pub const UPDATE_PRODUCT_SQL: &'static str = "UPDATE $id SET slug = $slug, title = $title, description = $description, price_cents = $price, stock = $stock, image = $image";
pub const SET_PRODUCT_STATUS_SQL: &'static str = "UPDATE $id SET status = $status";
pub const DELETE_PRODUCT_SQL: &'static str = "DELETE product WHERE id = $id";
pub const MEDIA_USERS_SQL: &'static str = "SELECT id FROM product WHERE id != $id AND (image = $url OR description CONTAINS $url)";
pub const PRODUCT_BY_ID_SQL: &'static str = "SELECT * FROM product WHERE id = $id";
pub const DECREMENT_STOCK_SQL: &'static str = "UPDATE $id SET stock = stock - $qty WHERE stock >= $qty";

/// The table of products.
pub const PRODUCT_TABLE: &'static str = "product";

/// The product on sale with this slug.
pub fn product_by_slug_query(slug: &str) -> (res: DbQuery)
    ensures
        res.sql@ == PRODUCT_BY_SLUG_SQL@,
        res.params@.len() == 2,
        is_text_param(res.params@[0], "slug"@, slug@),
        is_text_param(res.params@[1], "status"@, PRODUCT_STATUS_ACTIVE@),
{
    let mut params: Vec<QueryParam> = Vec::new();
    params.push(text_param("slug", slug));
    params.push(text_param("status", PRODUCT_STATUS_ACTIVE));
    DbQuery { sql: owned(PRODUCT_BY_SLUG_SQL), params }
}

/// The product with this slug, on sale or not (slug uniqueness).
pub fn product_by_slug_any_query(slug: &str) -> (res: DbQuery)
    ensures
        res.sql@ == PRODUCT_BY_SLUG_ANY_SQL@,
        res.params@.len() == 1,
        is_text_param(res.params@[0], "slug"@, slug@),
{
    let mut params: Vec<QueryParam> = Vec::new();
    params.push(text_param("slug", slug));
    DbQuery { sql: owned(PRODUCT_BY_SLUG_ANY_SQL), params }
}

/// Whether some product, on sale or not, uses this slug.
pub fn slug_exists_query(slug: &str) -> (res: DbQuery)
    ensures
        res.sql@ == SLUG_EXISTS_SQL@,
        res.params@.len() == 1,
        is_text_param(res.params@[0], "slug"@, slug@),
{
    let mut params: Vec<QueryParam> = Vec::new();
    params.push(text_param("slug", slug));
    DbQuery { sql: owned(SLUG_EXISTS_SQL), params }
}

/// Page `page` (from 1) of all products, newest first.
pub fn list_all_products_query(page: u64, page_size: u64) -> (res: DbQuery)
    requires
        page >= 1,
        (page - 1) * page_size <= u64::MAX,
    ensures
        res.sql@ == LIST_ALL_PRODUCTS_SQL@,
        res.params@.len() == 2,
        is_int_param(res.params@[0], "limit"@, (page_size as i64) as int),
        is_int_param(res.params@[1], "start"@, ((page - 1) * page_size) as i64 as int),
{
    let mut params: Vec<QueryParam> = Vec::new();
    params.push(int_param("limit", page_size as i64));
    params.push(int_param("start", page_start(page, page_size)));
    DbQuery { sql: owned(LIST_ALL_PRODUCTS_SQL), params }
}

/// The number of all products.
pub fn count_all_products_query() -> (res: DbQuery)
    ensures
        res.sql@ == COUNT_ALL_PRODUCTS_SQL@,
        res.params@.len() == 0,
{
    DbQuery { sql: owned(COUNT_ALL_PRODUCTS_SQL), params: Vec::new() }
}

/// `$image`: the image URL, or NONE for no image or an empty one.
pub open spec fn is_image_param(p: QueryParam, image: Option<&str>) -> bool {
    p.name@ == "image"@ && (p.value matches QueryValue::OptText(v) && match image {
        Some(i) => if i@.len() > 0 { v matches Some(t) && t@ == i@ } else { v is None },
        None => v is None,
    })
}

fn image_param(image: Option<&str>) -> (res: QueryParam)
    ensures
        is_image_param(res, image),
{
    let v = match image {
        Some(i) => if i.is_empty() { None } else { Some(owned(i)) },
        None => None,
    };
    QueryParam { name: "image", value: QueryValue::OptText(v) }
}

/// The product fields of a create or an update, from `$slug` to `$image`.
pub open spec fn product_field_params(params: Seq<QueryParam>, slug: &str, title: &str, description: &str, price_cents: i64, stock: i64, image: Option<&str>) -> bool {
    &&& params.len() == 6
    &&& is_text_param(params[0], "slug"@, slug@)
    &&& is_text_param(params[1], "title"@, title@)
    &&& is_text_param(params[2], "description"@, description@)
    &&& is_int_param(params[3], "price"@, price_cents as int)
    &&& is_int_param(params[4], "stock"@, stock as int)
    &&& is_image_param(params[5], image)
}

fn push_product_fields(params: &mut Vec<QueryParam>, slug: &str, title: &str, description: &str, price_cents: i64, stock: i64, image: Option<&str>)
    ensures
        final(params)@.len() == old(params)@.len() + 6,
        final(params)@.take(old(params)@.len() as int) == old(params)@,
        product_field_params(
            final(params)@.subrange(old(params)@.len() as int, old(params)@.len() as int + 6),
            slug, title, description, price_cents, stock, image,
        ),
{
    let ghost start = params@;
    params.push(text_param("slug", slug));
    params.push(text_param("title", title));
    params.push(text_param("description", description));
    params.push(int_param("price", price_cents));
    params.push(int_param("stock", stock));
    params.push(image_param(image));
    assert(params@.take(start.len() as int) =~= start);
}

/// The query that creates a product (on sale) under a new record id, and
/// that id. The id always parses, so building this query cannot fail.
pub fn create_product_query(slug: &str, title: &str, description: &str, price_cents: i64, stock: i64, image: Option<&str>) -> (res: (String, DbQuery))
    ensures
        is_new_record_id(PRODUCT_TABLE@, res.0@),
        res.1.sql@ == CREATE_PRODUCT_SQL@,
        res.1.params@.len() == 8,
        is_record_param(res.1.params@[0], "id"@, res.0@),
        product_field_params(res.1.params@.subrange(1, 7), slug, title, description, price_cents, stock, image),
        is_text_param(res.1.params@[7], "status"@, PRODUCT_STATUS_ACTIVE@),
{
    let id = new_record_id(PRODUCT_TABLE);
    proof {
        reveal_strlit("product");
        assert(plain_table(PRODUCT_TABLE@));
        lemma_new_record_id_round_trip(PRODUCT_TABLE@, id@);
    }
    let id_param = match record_id(id.as_str()) {
        Ok(r) => QueryParam { name: "id", value: QueryValue::Record(r) },
        Err(e) => {
            proof {
                assert(false);
            }
            QueryParam { name: "id", value: QueryValue::Text(e) }
        },
    };
    let mut params: Vec<QueryParam> = Vec::new();
    params.push(id_param);
    push_product_fields(&mut params, slug, title, description, price_cents, stock, image);
    let ghost with_fields = params@;
    params.push(text_param("status", PRODUCT_STATUS_ACTIVE));
    assert(params@.subrange(1, 7) =~= with_fields.subrange(1, 7));
    assert(params@[0] == with_fields.take(1)[0]);
    (id, DbQuery { sql: owned(CREATE_PRODUCT_SQL), params })
}

/// The query that overwrites a product's fields (not its status).
pub fn update_product_query(product_id: &str, slug: &str, title: &str, description: &str, price_cents: i64, stock: i64, image: Option<&str>) -> (res: Result<DbQuery, String>)
    ensures
        match res {
            Ok(q) => q.sql@ == UPDATE_PRODUCT_SQL@ && q.params@.len() == 7
                && is_record_param(q.params@[0], "id"@, product_id@)
                && product_field_params(q.params@.subrange(1, 7), slug, title, description, price_cents, stock, image),
            Err(_) => parse_simple_result(product_id@) is None,
        },
{
    let mut q = by_record_id(UPDATE_PRODUCT_SQL, product_id)?;
    push_product_fields(&mut q.params, slug, title, description, price_cents, stock, image);
    Ok(q)
}

/// The query that puts a product on or off sale.
pub fn set_product_status_query(product_id: &str, status: &str) -> (res: Result<DbQuery, String>)
    ensures
        match res {
            Ok(q) => q.sql@ == SET_PRODUCT_STATUS_SQL@ && q.params@.len() == 2
                && is_record_param(q.params@[0], "id"@, product_id@)
                && is_text_param(q.params@[1], "status"@, status@),
            Err(_) => parse_simple_result(product_id@) is None,
        },
{
    let mut q = by_record_id(SET_PRODUCT_STATUS_SQL, product_id)?;
    q.params.push(text_param("status", status));
    Ok(q)
}

/// The query that deletes a product.
pub fn delete_product_query(product_id: &str) -> (res: Result<DbQuery, String>)
    ensures
        match res {
            Ok(q) => q.sql@ == DELETE_PRODUCT_SQL@ && q.params@.len() == 1
                && is_record_param(q.params@[0], "id"@, product_id@),
            Err(_) => parse_simple_result(product_id@) is None,
        },
{
    by_record_id(DELETE_PRODUCT_SQL, product_id)
}

/// The other products that still use a media URL (as image or in their
/// description); a file nobody else uses can be removed.
pub fn media_users_query(product_id: &str, url: &str) -> (res: Result<DbQuery, String>)
    ensures
        match res {
            Ok(q) => q.sql@ == MEDIA_USERS_SQL@ && q.params@.len() == 2
                && is_record_param(q.params@[0], "id"@, product_id@)
                && is_text_param(q.params@[1], "url"@, url@),
            Err(_) => parse_simple_result(product_id@) is None,
        },
{
    let mut q = by_record_id(MEDIA_USERS_SQL, product_id)?;
    q.params.push(text_param("url", url));
    Ok(q)
}

/// The media a product refers to: its image when set and not empty, then
/// the media URLs embedded in its description.
pub fn media_refs(image: Option<&str>, embedded: Vec<String>) -> (res: Vec<String>)
    ensures
        match image {
            Some(i) => if i@.len() > 0 {
                res@.len() == embedded@.len() + 1 && res@[0]@ == i@ && res@.skip(1) == embedded@
            } else {
                res@ == embedded@
            },
            None => res@ == embedded@,
        },
{
    let mut refs: Vec<String> = Vec::new();
    if let Some(i) = image {
        if !i.is_empty() {
            refs.push(owned(i));
        }
    }
    let mut rest = embedded;
    refs.append(&mut rest);
    refs
}

/// The query for a product by id, on sale or not.
pub fn product_by_id_query(product_id: &str) -> (res: Result<DbQuery, String>)
    ensures
        match res {
            Ok(q) => q.sql@ == PRODUCT_BY_ID_SQL@ && q.params@.len() == 1
                && is_record_param(q.params@[0], "id"@, product_id@),
            Err(_) => parse_simple_result(product_id@) is None,
        },
{
    by_record_id(PRODUCT_BY_ID_SQL, product_id)
}

/// The single-statement stock decrement: it takes `qty` only while at least
/// `qty` is in stock, so it never sells more than there is (an update of no
/// row means it did not happen).
pub fn decrement_stock_query(product_id: &str, qty: i64) -> (res: Result<DbQuery, String>)
    ensures
        match res {
            Ok(q) => q.sql@ == DECREMENT_STOCK_SQL@ && q.params@.len() == 2
                && is_record_param(q.params@[0], "id"@, product_id@)
                && is_int_param(q.params@[1], "qty"@, qty as int),
            Err(_) => parse_simple_result(product_id@) is None,
        },
{
    let mut q = by_record_id(DECREMENT_STOCK_SQL, product_id)?;
    q.params.push(int_param("qty", qty));
    Ok(q)
}

/// The placeholder image of a seeded product:
/// `https://picsum.photos/seed/{slug}/800/600`.
pub fn seed_image_url(slug: &str) -> (res: String)
    ensures
        res@ == "https://picsum.photos/seed/"@ + slug@ + "/800/600"@,
{
    let mut s = owned("https://picsum.photos/seed/");
    push_str(&mut s, slug);
    push_str(&mut s, "/800/600");
    s
}

} // verus!
