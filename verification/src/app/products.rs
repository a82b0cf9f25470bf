//! The product list and product page.

use vstd::prelude::*;
use crate::text::{owned, push_str, trim, trim_text};

verus! {

/// Query of the product list.
pub struct ProductQuery {
    pub page: Option<u64>,
    pub q: Option<String>,
}

/// The search of the product grid: the query without surrounding white
/// space, `None` when nothing is left.
pub fn search_term(query: &str) -> (res: Option<String>)
    ensures
        trim_text(query@).len() == 0 ==> res is None,
        trim_text(query@).len() > 0 ==> (res matches Some(q) && q@ == trim_text(query@)),
{
    let t = trim(query);
    if t.as_str().is_empty() { None } else { Some(t) }
}

/// The pagination base of the product grid: `/{locale}/products`, with
/// `?q={search}` when searching.
pub fn grid_base_url(locale: &str, search: Option<&str>) -> (res: String)
    ensures
        match search {
            Some(q) => res@ == seq!['/'] + locale@ + "/products?q="@ + q@,
            None => res@ == seq!['/'] + locale@ + "/products"@,
        },
{
    let mut s = owned("/");
    push_str(&mut s, locale);
    match search {
        Some(q) => {
            push_str(&mut s, "/products?q=");
            push_str(&mut s, q);
        },
        None => {
            push_str(&mut s, "/products");
        },
    }
    proof {
        reveal_strlit("/");
    }
    assert(match search {
        Some(q) => s@ =~= seq!['/'] + locale@ + "/products?q="@ + q@,
        None => s@ =~= seq!['/'] + locale@ + "/products"@,
    });
    s
}

} // verus!
