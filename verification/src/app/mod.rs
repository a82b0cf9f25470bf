//! The decisions the web handlers take, apart from the requests they read
//! and the responses they send.

pub mod admin;
pub mod checkout;
pub mod orders;
pub mod products;
pub mod users;

use vstd::prelude::*;

verus! {

/// The page a list shows: the requested page, with no page or page 0 read as
/// the first page.
pub fn requested_page(page: Option<u64>) -> (res: u64)
    ensures
        res == match page {
            Some(p) => if p >= 1 { p } else { 1 },
            None => 1,
        },
        res >= 1,
{
    match page {
        Some(p) => if p >= 1 { p } else { 1 },
        None => 1,
    }
}

} // verus!
