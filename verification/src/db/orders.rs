//! Order queries: their text and the values bound to them. Running them is
//! the caller's work.

use vstd::prelude::*;
use crate::common::constant::{ORDER_STATUS_CANCELLED, ORDER_STATUS_PAID, ORDER_STATUS_PENDING};
use crate::db::{
    DbQuery, QueryParam, QueryValue, int_param, is_int_param, is_new_record_id, is_record_param,
    is_text_param, lemma_new_record_id_round_trip, new_record_id, page_start, parse_simple_result,
    plain_table, record_id, text_param, by_record_id,
};
use crate::models::order::OrderItem;
use crate::text::{owned, str_eq};

verus! {

pub const CREATE_ORDER_SQL: &'static str = "CREATE order CONTENT { id: $id, user_id: $user, items: $items, total_cents: $total, status: $status, created_at: time::now() }";
pub const ORDER_BY_ID_SQL: &'static str = "SELECT * FROM order WHERE id = $id";
pub const ORDER_BY_SESSION_SQL: &'static str = "SELECT * FROM order WHERE stripe_session_id = $sid";
pub const SET_SESSION_SQL: &'static str = "UPDATE $id SET stripe_session_id = $sid";
pub const MARK_PAID_SQL: &'static str = "UPDATE $id SET status = $status, paid_at = time::now()";
pub const LIST_ORDERS_SQL: &'static str = "SELECT * FROM order WHERE user_id = $user ORDER BY created_at DESC LIMIT $limit START $start";
pub const COUNT_ORDERS_SQL: &'static str = "SELECT count() FROM order WHERE user_id = $user GROUP ALL";
pub const LIST_ALL_ORDERS_SQL: &'static str = "SELECT * FROM order ORDER BY created_at DESC LIMIT $limit START $start";
pub const COUNT_ALL_ORDERS_SQL: &'static str = "SELECT count() FROM order GROUP ALL";
pub const CANCEL_SQL: &'static str = "UPDATE $id SET status = $to, cancelled_at = time::now() WHERE status = $from";
pub const TRANSITION_SQL: &'static str = "UPDATE $id SET status = $to WHERE status = $from";

/// The table of orders.
pub const ORDER_TABLE: &'static str = "order";

proof fn lemma_order_table_plain()
    ensures
        plain_table(ORDER_TABLE@),
{
    reveal_strlit("order");
}

/// The query that creates a pending order with these lines and this total
/// under a new record id, and that id. The id always parses, so building
/// this query cannot fail.
pub fn create_order_query(user_id: &str, items: Vec<OrderItem>, total_cents: i64) -> (res: (String, DbQuery))
    ensures
        is_new_record_id(ORDER_TABLE@, res.0@),
        res.1.sql@ == CREATE_ORDER_SQL@,
        res.1.params@.len() == 5,
        is_record_param(res.1.params@[0], "id"@, res.0@),
        is_text_param(res.1.params@[1], "user"@, user_id@),
        res.1.params@[2].name@ == "items"@ && (res.1.params@[2].value matches QueryValue::Items(v) && v@ == items@),
        is_int_param(res.1.params@[3], "total"@, total_cents as int),
        is_text_param(res.1.params@[4], "status"@, ORDER_STATUS_PENDING@),
{
    let id = new_record_id(ORDER_TABLE);
    proof {
        lemma_order_table_plain();
        lemma_new_record_id_round_trip(ORDER_TABLE@, id@);
    }
    let id_param = match record_id(id.as_str()) {
        Ok(r) => QueryParam { name: "id", value: QueryValue::Record(r) },
        Err(e) => {
            proof {
                assert(false);
            }
            QueryParam { name: "id", value: QueryValue::Text(e) }
        },
    };
    let mut params: Vec<QueryParam> = Vec::new();
    params.push(id_param);
    params.push(text_param("user", user_id));
    params.push(QueryParam { name: "items", value: QueryValue::Items(items) });
    params.push(int_param("total", total_cents));
    params.push(text_param("status", ORDER_STATUS_PENDING));
    (id, DbQuery { sql: owned(CREATE_ORDER_SQL), params })
}

/// The query for an order by id.
pub fn order_by_id_query(id: &str) -> (res: Result<DbQuery, String>)
    ensures
        match res {
            Ok(q) => q.sql@ == ORDER_BY_ID_SQL@ && q.params@.len() == 1 && is_record_param(q.params@[0], "id"@, id@),
            Err(_) => parse_simple_result(id@) is None,
        },
{
    by_record_id(ORDER_BY_ID_SQL, id)
}

/// The query for the order paid by a Stripe session (the webhook's link).
pub fn order_by_session_query(session_id: &str) -> (res: DbQuery)
    ensures
        res.sql@ == ORDER_BY_SESSION_SQL@,
        res.params@.len() == 1,
        is_text_param(res.params@[0], "sid"@, session_id@),
{
    let mut params: Vec<QueryParam> = Vec::new();
    params.push(text_param("sid", session_id));
    DbQuery { sql: owned(ORDER_BY_SESSION_SQL), params }
}

/// The query that records the Stripe session of an order.
pub fn set_session_id_query(order_id: &str, session_id: &str) -> (res: Result<DbQuery, String>)
    ensures
        match res {
            Ok(q) => q.sql@ == SET_SESSION_SQL@ && q.params@.len() == 2
                && is_record_param(q.params@[0], "id"@, order_id@)
                && is_text_param(q.params@[1], "sid"@, session_id@),
            Err(_) => parse_simple_result(order_id@) is None,
        },
{
    let mut q = by_record_id(SET_SESSION_SQL, order_id)?;
    q.params.push(text_param("sid", session_id));
    Ok(q)
}

/// The query that marks an order paid, stamping the payment time.
pub fn mark_paid_query(order_id: &str) -> (res: Result<DbQuery, String>)
    ensures
        match res {
            Ok(q) => q.sql@ == MARK_PAID_SQL@ && q.params@.len() == 2
                && is_record_param(q.params@[0], "id"@, order_id@)
                && is_text_param(q.params@[1], "status"@, ORDER_STATUS_PAID@),
            Err(_) => parse_simple_result(order_id@) is None,
        },
{
    let mut q = by_record_id(MARK_PAID_SQL, order_id)?;
    q.params.push(text_param("status", ORDER_STATUS_PAID));
    Ok(q)
}

/// `$limit` and `$start` of page `page` (from 1) of `page_size` rows.
fn push_page(params: &mut Vec<QueryParam>, page: u64, page_size: u64)
    requires
        page >= 1,
        (page - 1) * page_size <= u64::MAX,
    ensures
        final(params)@.len() == old(params)@.len() + 2,
        forall|i: int| 0 <= i < old(params)@.len() ==> final(params)@[i] == old(params)@[i],
        is_int_param(final(params)@[old(params)@.len() as int], "limit"@, (page_size as i64) as int),
        is_int_param(final(params)@[old(params)@.len() as int + 1], "start"@, ((page - 1) * page_size) as i64 as int),
{
    params.push(int_param("limit", page_size as i64));
    params.push(int_param("start", page_start(page, page_size)));
}

/// Page `page` (from 1) of a user's orders, newest first.
pub fn list_orders_query(user_id: &str, page: u64, page_size: u64) -> (res: DbQuery)
    requires
        page >= 1,
        (page - 1) * page_size <= u64::MAX,
    ensures
        res.sql@ == LIST_ORDERS_SQL@,
        res.params@.len() == 3,
        is_text_param(res.params@[0], "user"@, user_id@),
        is_int_param(res.params@[1], "limit"@, (page_size as i64) as int),
        is_int_param(res.params@[2], "start"@, ((page - 1) * page_size) as i64 as int),
{
    let mut params: Vec<QueryParam> = Vec::new();
    params.push(text_param("user", user_id));
    push_page(&mut params, page, page_size);
    DbQuery { sql: owned(LIST_ORDERS_SQL), params }
}

/// The number of a user's orders.
pub fn count_orders_query(user_id: &str) -> (res: DbQuery)
    ensures
        res.sql@ == COUNT_ORDERS_SQL@,
        res.params@.len() == 1,
        is_text_param(res.params@[0], "user"@, user_id@),
{
    let mut params: Vec<QueryParam> = Vec::new();
    params.push(text_param("user", user_id));
    DbQuery { sql: owned(COUNT_ORDERS_SQL), params }
}

/// Page `page` (from 1) of all orders, newest first.
pub fn list_all_orders_query(page: u64, page_size: u64) -> (res: DbQuery)
    requires
        page >= 1,
        (page - 1) * page_size <= u64::MAX,
    ensures
        res.sql@ == LIST_ALL_ORDERS_SQL@,
        res.params@.len() == 2,
        is_int_param(res.params@[0], "limit"@, (page_size as i64) as int),
        is_int_param(res.params@[1], "start"@, ((page - 1) * page_size) as i64 as int),
{
    let mut params: Vec<QueryParam> = Vec::new();
    push_page(&mut params, page, page_size);
    DbQuery { sql: owned(LIST_ALL_ORDERS_SQL), params }
}

/// The number of all orders.
pub fn count_all_orders_query() -> (res: DbQuery)
    ensures
        res.sql@ == COUNT_ALL_ORDERS_SQL@,
        res.params@.len() == 0,
{
    DbQuery { sql: owned(COUNT_ALL_ORDERS_SQL), params: Vec::new() }
}

/// The conditional status change of the admin side: the order moves to `to`
/// only while it is still in `from`, so a concurrent change makes it update
/// nothing. Cancelling also stamps the cancellation time.
pub fn transition_status_query(order_id: &str, from: &str, to: &str) -> (res: Result<DbQuery, String>)
    ensures
        match res {
            Ok(q) => q.sql@ == (if to@ == ORDER_STATUS_CANCELLED@ { CANCEL_SQL@ } else { TRANSITION_SQL@ })
                && q.params@.len() == 3
                && is_record_param(q.params@[0], "id"@, order_id@)
                && is_text_param(q.params@[1], "from"@, from@)
                && is_text_param(q.params@[2], "to"@, to@),
            Err(_) => parse_simple_result(order_id@) is None,
        },
{
    let sql = if str_eq(to, ORDER_STATUS_CANCELLED) { CANCEL_SQL } else { TRANSITION_SQL };
    let mut q = by_record_id(sql, order_id)?;
    q.params.push(text_param("from", from));
    q.params.push(text_param("to", to));
    Ok(q)
}

} // verus!
