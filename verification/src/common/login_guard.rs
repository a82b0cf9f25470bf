//! The sign-in guard in front of `/{locale}/orders`.

use vstd::prelude::*;
use crate::text::{owned, push_str};

verus! {

/// Guards every route under `/{locale}/orders`: a visitor who is not signed
/// in is sent to the sign-in page, with the page asked for as `next` so that
/// signing in leads back to it.
pub struct LoginGuard;

/// `/{locale}/sign-in?next={next}`.
pub open spec fn sign_in_location(locale: Seq<char>, next: Seq<char>) -> Seq<char> {
    seq!['/'] + locale + "/sign-in?next="@ + next
}

/// Builds `/{locale}/sign-in?next={next}`.
pub fn sign_in_url(locale: &str, next: &str) -> (res: String)
    ensures
        res@ == sign_in_location(locale@, next@),
{
    let mut s = owned("/");
    push_str(&mut s, locale);
    push_str(&mut s, "/sign-in?next=");
    push_str(&mut s, next);
    proof {
        reveal_strlit("/");
    }
    assert(s@ =~= sign_in_location(locale@, next@));
    s
}

impl LoginGuard {
    /// The route pattern the guard covers.
    pub fn path(&self) -> (res: &'static str)
        ensures
            res@ == "/{locale}/orders"@,
    {
        "/{locale}/orders"
    }

    /// What the guard does with a request for `path_and_query` under
    /// `/{locale}/orders`: `None` lets a signed-in visitor through, otherwise
    /// the answer is a redirect to the returned sign-in location.
    pub fn handle(&self, signed_in: bool, locale: &str, path_and_query: &str) -> (res: Option<String>)
        ensures
            signed_in ==> res is None,
            !signed_in ==> (res matches Some(loc) && loc@ == sign_in_location(locale@, path_and_query@)),
    {
        if signed_in {
            None
        } else {
            Some(sign_in_url(locale, path_and_query))
        }
    }
}

} // verus!
