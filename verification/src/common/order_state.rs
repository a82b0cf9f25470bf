//! The order state machine as seen from the admin side.
//!
//! ```text
//! pending --(payment webhook)--> paid --(admin)--> shipped --(admin)--> completed
//!    |                             |
//!    +----(admin cancels)----------+----(admin cancels)--> cancelled
//! ```

use vstd::prelude::*;
use crate::common::constant::{
    ORDER_STATUS_CANCELLED, ORDER_STATUS_COMPLETED, ORDER_STATUS_PAID, ORDER_STATUS_PENDING,
    ORDER_STATUS_SHIPPED,
};
use crate::text::str_eq;

verus! {

/// The moves an administrator may make: paid -> shipped, shipped -> completed,
/// pending -> cancelled and paid -> cancelled. Nothing else.
pub open spec fn transition_allowed(from: Seq<char>, to: Seq<char>) -> bool {
    ||| from == ORDER_STATUS_PAID@ && to == ORDER_STATUS_SHIPPED@
    ||| from == ORDER_STATUS_SHIPPED@ && to == ORDER_STATUS_COMPLETED@
    ||| from == ORDER_STATUS_PENDING@ && to == ORDER_STATUS_CANCELLED@
    ||| from == ORDER_STATUS_PAID@ && to == ORDER_STATUS_CANCELLED@
}

/// The admin actions (i18n keys) offered in each status.
pub open spec fn actions_for(status: Seq<char>) -> Seq<Seq<char>> {
    if status == ORDER_STATUS_PENDING@ {
        seq!["admin_cancel_order"@]
    } else if status == ORDER_STATUS_PAID@ {
        seq!["admin_mark_shipped"@, "admin_cancel_order"@]
    } else if status == ORDER_STATUS_SHIPPED@ {
        seq!["admin_mark_completed"@]
    } else {
        Seq::empty()
    }
}

/// Whether an administrator may move an order from `from` to `to`.
pub fn allowed_transition(from: &str, to: &str) -> (res: bool)
    ensures
        res == transition_allowed(from@, to@),
{
    if str_eq(from, ORDER_STATUS_PAID) && str_eq(to, ORDER_STATUS_SHIPPED) {
        true
    } else if str_eq(from, ORDER_STATUS_SHIPPED) && str_eq(to, ORDER_STATUS_COMPLETED) {
        true
    } else if str_eq(from, ORDER_STATUS_PENDING) && str_eq(to, ORDER_STATUS_CANCELLED) {
        true
    } else if str_eq(from, ORDER_STATUS_PAID) && str_eq(to, ORDER_STATUS_CANCELLED) {
        true
    } else {
        false
    }
}

/// The admin actions (i18n keys) available for an order in `status`.
pub fn next_actions(status: &str) -> (res: &'static [&'static str])
    ensures
        res@.len() == actions_for(status@).len(),
        forall|i: int| 0 <= i < res@.len() ==> #[trigger] res@[i]@ == actions_for(status@)[i],
{
    if str_eq(status, ORDER_STATUS_PENDING) {
        &["admin_cancel_order"]
    } else if str_eq(status, ORDER_STATUS_PAID) {
        &["admin_mark_shipped", "admin_cancel_order"]
    } else if str_eq(status, ORDER_STATUS_SHIPPED) {
        &["admin_mark_completed"]
    } else {
        &[]
    }
}

/// The status an admin action (i18n key of its button) moves an order to.
pub open spec fn action_target(action: Seq<char>) -> Option<Seq<char>> {
    if action == "admin_cancel_order"@ {
        Some(ORDER_STATUS_CANCELLED@)
    } else if action == "admin_mark_shipped"@ {
        Some(ORDER_STATUS_SHIPPED@)
    } else if action == "admin_mark_completed"@ {
        Some(ORDER_STATUS_COMPLETED@)
    } else {
        None
    }
}

/// The status an admin action button asks for: cancel -> cancelled, mark
/// shipped -> shipped, mark completed -> completed; `None` for anything else.
pub fn action_target_status(action: &str) -> (res: Option<&'static str>)
    ensures
        match res {
            Some(t) => action_target(action@) == Some(t@),
            None => action_target(action@) is None,
        },
{
    if str_eq(action, "admin_cancel_order") {
        Some(ORDER_STATUS_CANCELLED)
    } else if str_eq(action, "admin_mark_shipped") {
        Some(ORDER_STATUS_SHIPPED)
    } else if str_eq(action, "admin_mark_completed") {
        Some(ORDER_STATUS_COMPLETED)
    } else {
        None
    }
}

/// Position of each status along the order's life; unknown statuses sit
/// before all of them.
pub open spec fn status_rank(s: Seq<char>) -> int {
    if s == ORDER_STATUS_PENDING@ { 0 }
    else if s == ORDER_STATUS_PAID@ { 1 }
    else if s == ORDER_STATUS_SHIPPED@ { 2 }
    else if s == ORDER_STATUS_COMPLETED@ { 3 }
    else if s == ORDER_STATUS_CANCELLED@ { 4 }
    else { -1 }
}

/// A sequence of statuses each of which an administrator may move to from the
/// one before.
pub open spec fn is_transition_path(path: Seq<Seq<char>>) -> bool {
    forall|i: int| 0 <= i < path.len() - 1 ==> #[trigger] transition_allowed(path[i], path[i + 1])
}

proof fn lemma_status_texts()
    ensures
        ORDER_STATUS_PENDING@ == seq!['p', 'e', 'n', 'd', 'i', 'n', 'g'],
        ORDER_STATUS_PAID@ == seq!['p', 'a', 'i', 'd'],
        ORDER_STATUS_SHIPPED@ == seq!['s', 'h', 'i', 'p', 'p', 'e', 'd'],
        ORDER_STATUS_COMPLETED@ == seq!['c', 'o', 'm', 'p', 'l', 'e', 't', 'e', 'd'],
        ORDER_STATUS_CANCELLED@ == seq!['c', 'a', 'n', 'c', 'e', 'l', 'l', 'e', 'd'],
{
    reveal_strlit("pending");
    reveal_strlit("paid");
    reveal_strlit("shipped");
    reveal_strlit("completed");
    reveal_strlit("cancelled");
    assert(ORDER_STATUS_PENDING@ =~= seq!['p', 'e', 'n', 'd', 'i', 'n', 'g']);
    assert(ORDER_STATUS_PAID@ =~= seq!['p', 'a', 'i', 'd']);
    assert(ORDER_STATUS_SHIPPED@ =~= seq!['s', 'h', 'i', 'p', 'p', 'e', 'd']);
    assert(ORDER_STATUS_COMPLETED@ =~= seq!['c', 'o', 'm', 'p', 'l', 'e', 't', 'e', 'd']);
    assert(ORDER_STATUS_CANCELLED@ =~= seq!['c', 'a', 'n', 'c', 'e', 'l', 'l', 'e', 'd']);
}

/// The five statuses are pairwise different texts.
pub proof fn lemma_statuses_distinct()
    ensures
        ORDER_STATUS_PENDING@ != ORDER_STATUS_PAID@,
        ORDER_STATUS_PENDING@ != ORDER_STATUS_SHIPPED@,
        ORDER_STATUS_PENDING@ != ORDER_STATUS_COMPLETED@,
        ORDER_STATUS_PENDING@ != ORDER_STATUS_CANCELLED@,
        ORDER_STATUS_PAID@ != ORDER_STATUS_SHIPPED@,
        ORDER_STATUS_PAID@ != ORDER_STATUS_COMPLETED@,
        ORDER_STATUS_PAID@ != ORDER_STATUS_CANCELLED@,
        ORDER_STATUS_SHIPPED@ != ORDER_STATUS_COMPLETED@,
        ORDER_STATUS_SHIPPED@ != ORDER_STATUS_CANCELLED@,
        ORDER_STATUS_COMPLETED@ != ORDER_STATUS_CANCELLED@,
{
    lemma_status_texts();
    assert(ORDER_STATUS_PENDING@[1] != ORDER_STATUS_PAID@[1]);
    assert(ORDER_STATUS_PENDING@[0] != ORDER_STATUS_SHIPPED@[0]);
    assert(ORDER_STATUS_PENDING@[0] != ORDER_STATUS_COMPLETED@[0]);
    assert(ORDER_STATUS_PENDING@[0] != ORDER_STATUS_CANCELLED@[0]);
    assert(ORDER_STATUS_PAID@[0] != ORDER_STATUS_SHIPPED@[0]);
    assert(ORDER_STATUS_PAID@[0] != ORDER_STATUS_COMPLETED@[0]);
    assert(ORDER_STATUS_PAID@[0] != ORDER_STATUS_CANCELLED@[0]);
    assert(ORDER_STATUS_SHIPPED@[0] != ORDER_STATUS_COMPLETED@[0]);
    assert(ORDER_STATUS_SHIPPED@[0] != ORDER_STATUS_CANCELLED@[0]);
    assert(ORDER_STATUS_COMPLETED@[1] != ORDER_STATUS_CANCELLED@[1]);
}

/// Every allowed move goes forward along pending, paid, shipped, completed,
/// cancelled: the target always ranks above the source.
pub proof fn lemma_transitions_go_forward(from: Seq<char>, to: Seq<char>)
    requires
        transition_allowed(from, to),
    ensures
        status_rank(from) < status_rank(to),
        0 <= status_rank(from),
{
    lemma_statuses_distinct();
}

/// No order moves to a status it was already in: there are no self loops.
pub proof fn lemma_no_self_transition(s: Seq<char>)
    ensures
        !transition_allowed(s, s),
{
    lemma_statuses_distinct();
}

/// Completed and cancelled are final: no move leaves them, and no move leaves
/// an unknown status either.
pub proof fn lemma_final_statuses(to: Seq<char>)
    ensures
        !transition_allowed(ORDER_STATUS_COMPLETED@, to),
        !transition_allowed(ORDER_STATUS_CANCELLED@, to),
        forall|from: Seq<char>| status_rank(from) == -1 ==> !transition_allowed(from, to),
{
    lemma_statuses_distinct();
}

/// Only the payment webhook marks an order paid, and nothing returns an order
/// to pending: no admin move targets either status.
pub proof fn lemma_admin_never_pays_or_reopens(from: Seq<char>)
    ensures
        !transition_allowed(from, ORDER_STATUS_PAID@),
        !transition_allowed(from, ORDER_STATUS_PENDING@),
{
    lemma_statuses_distinct();
}

proof fn lemma_path_ranks(path: Seq<Seq<char>>, k: int)
    requires
        is_transition_path(path),
        1 <= k < path.len(),
    ensures
        status_rank(path[0]) < status_rank(path[k]),
    decreases k,
{
    let j = k - 1;
    assert(transition_allowed(path[j], path[j + 1]));
    lemma_transitions_go_forward(path[j], path[j + 1]);
    if k > 1 {
        lemma_path_ranks(path, k - 1);
    }
}

/// The state machine has no cycles: a sequence of admin moves never comes
/// back to the status it started from.
pub proof fn lemma_no_cycles(path: Seq<Seq<char>>)
    requires
        path.len() >= 2,
        is_transition_path(path),
    ensures
        path[0] != path[path.len() - 1],
{
    lemma_path_ranks(path, path.len() - 1);
}

proof fn lemma_action_texts()
    ensures
        "admin_cancel_order"@ != "admin_mark_shipped"@,
        "admin_cancel_order"@ != "admin_mark_completed"@,
        "admin_mark_shipped"@ != "admin_mark_completed"@,
{
    reveal_strlit("admin_cancel_order");
    reveal_strlit("admin_mark_shipped");
    reveal_strlit("admin_mark_completed");
    assert("admin_cancel_order"@[6] != "admin_mark_shipped"@[6]);
    assert("admin_cancel_order"@[6] != "admin_mark_completed"@[6]);
    assert("admin_mark_shipped"@[11] != "admin_mark_completed"@[11]);
}

/// The actions offered for a status are exactly the allowed moves out of it:
/// "cancel" iff the order may be cancelled, "mark shipped" iff it may be
/// shipped, "mark completed" iff it may be completed, and no action at all
/// iff no move is allowed.
pub proof fn lemma_actions_match_transitions(status: Seq<char>)
    ensures
        actions_for(status).contains("admin_cancel_order"@)
            <==> transition_allowed(status, ORDER_STATUS_CANCELLED@),
        actions_for(status).contains("admin_mark_shipped"@)
            <==> transition_allowed(status, ORDER_STATUS_SHIPPED@),
        actions_for(status).contains("admin_mark_completed"@)
            <==> transition_allowed(status, ORDER_STATUS_COMPLETED@),
        actions_for(status).len() == 0 <==> (forall|to: Seq<char>| !transition_allowed(status, to)),
{
    lemma_statuses_distinct();
    lemma_action_texts();
    let a = actions_for(status);
    if status == ORDER_STATUS_PENDING@ {
        assert(a[0] == "admin_cancel_order"@);
        assert(transition_allowed(status, ORDER_STATUS_CANCELLED@));
    } else if status == ORDER_STATUS_PAID@ {
        assert(a[0] == "admin_mark_shipped"@);
        assert(a[1] == "admin_cancel_order"@);
        assert(transition_allowed(status, ORDER_STATUS_CANCELLED@));
    } else if status == ORDER_STATUS_SHIPPED@ {
        assert(a[0] == "admin_mark_completed"@);
        assert(transition_allowed(status, ORDER_STATUS_COMPLETED@));
    }
}

/// Every action offered for a status names a status, and the move there is
/// allowed: pressing any offered button asks for an allowed move.
pub proof fn lemma_offered_actions_are_allowed(status: Seq<char>)
    ensures
        forall|i: int| 0 <= i < actions_for(status).len() ==> {
            &&& #[trigger] action_target(actions_for(status)[i]) is Some
            &&& transition_allowed(status, action_target(actions_for(status)[i])->0)
        },
{
    lemma_statuses_distinct();
    lemma_action_texts();
    let a = actions_for(status);
    assert forall|i: int| 0 <= i < a.len() implies {
        &&& #[trigger] action_target(a[i]) is Some
        &&& transition_allowed(status, action_target(a[i])->0)
    } by {
        if status == ORDER_STATUS_PENDING@ {
            assert(a[i] == "admin_cancel_order"@);
        } else if status == ORDER_STATUS_PAID@ {
            if i == 0 {
                assert(a[i] == "admin_mark_shipped"@);
            } else {
                assert(a[i] == "admin_cancel_order"@);
            }
        } else {
            assert(a[i] == "admin_mark_completed"@);
        }
    }
}

} // verus!
