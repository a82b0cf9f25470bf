//! Record ids and paging shared by the database queries.

pub mod orders;
pub mod products;

use vstd::prelude::*;
use crate::text::{lemma_next_index, lemma_next_index_at, next_index, owned, push_char, push_str};

verus! {

/// A record id split into its table and its (string) key.
#[derive(Clone, Debug, PartialEq, Eq)]
pub struct RecordRef {
    pub table: String,
    pub key: String,
}

/// A fragment that `RecordId::parse_simple` unescapes: wrapped in backticks.
pub open spec fn backtick_wrapped(f: Seq<char>) -> bool {
    f.len() >= 2 && f[0] == '`' && f[f.len() - 1] == '`'
}

/// The table and key of `table:key` text whose table is not backtick-quoted:
/// the split is at the first `:`; `None` when there is no `:`.
pub open spec fn plain_split(s: Seq<char>) -> Option<(Seq<char>, Seq<char>)> {
    let p = next_index(s, 0, ':');
    if p < s.len() {
        Some((s.take(p), s.skip(p + 1)))
    } else {
        None
    }
}

/// The table and key `RecordId::parse_simple` reads from a full record id,
/// `None` when it rejects the text.
pub uninterp spec fn parse_simple_result(id: Seq<char>) -> Option<(Seq<char>, Seq<char>)>;

/// `surrealdb::types::RecordId::parse_simple`, with the id's table and string
/// key moved out. Its result is named `parse_simple_result`. For text that
/// does not start with a backtick the source splits at the first `:` and
/// keeps unquoted fragments as they are (the key always becomes a string
/// key); without a `:` it fails. What it makes of a backtick-quoted table,
/// or of a backtick-wrapped key (escape decoding), and the wording of its
/// error are left unsaid here.
#[verifier::external_body]
fn parse_simple_record_id(id: &str) -> (res: Result<RecordRef, String>)
    ensures
        match res {
            Ok(r) => parse_simple_result(id@) == Some((r.table@, r.key@)),
            Err(_) => parse_simple_result(id@) is None,
        },
        (id@.len() == 0 || id@[0] != '`') ==> match plain_split(id@) {
            None => res is Err,
            Some((t, k)) => !backtick_wrapped(k) ==> (res matches Ok(r) && r.table@ == t && r.key@ == k),
        },
{
    match surrealdb::types::RecordId::parse_simple(id) {
        Ok(surrealdb::types::RecordId { table, key: surrealdb::types::RecordIdKey::String(key) }) =>
            Ok(RecordRef { table: table.into_string(), key }),
        Ok(other) => Err(format!("{other:?}")),
        Err(e) => Err(e.to_string()),
    }
}

/// Parses a full record id such as `session:abc123` into table and key, so
/// that queries bind a record id rather than a bare string. For text like
/// `table:key` (no backticks) the table is what precedes the first `:` and
/// the key what follows it; text without `:` is an error.
pub fn record_id(id: &str) -> (res: Result<RecordRef, String>)
    ensures
        match res {
            Ok(r) => parse_simple_result(id@) == Some((r.table@, r.key@)),
            Err(_) => parse_simple_result(id@) is None,
        },
        (id@.len() == 0 || id@[0] != '`') ==> match plain_split(id@) {
            None => res is Err,
            Some((t, k)) => !backtick_wrapped(k) ==> (res matches Ok(r) && r.table@ == t && r.key@ == k),
        },
{
    parse_simple_record_id(id)
}

/// A lowercase hexadecimal digit.
pub open spec fn is_lower_hex(c: char) -> bool {
    ('0' <= c && c <= '9') || ('a' <= c && c <= 'f')
}

/// `Uuid::new_v4().simple().to_string()`: a fresh random UUID in the simple
/// format, which the uuid crate writes as 32 lowercase hexadecimal digits.
/// Which digits come out is left free: they are random.
#[verifier::external_body]
fn random_uuid_hex() -> (res: String)
    ensures
        res@.len() == 32,
        forall|i: int| 0 <= i < 32 ==> is_lower_hex(#[trigger] res@[i]),
{
    uuid::Uuid::new_v4().simple().to_string()
}

/// The shape of a freshly made record id for `table`: the table, a `:`,
/// then 32 lowercase hexadecimal digits.
pub open spec fn is_new_record_id(table: Seq<char>, id: Seq<char>) -> bool {
    &&& id.len() == table.len() + 33
    &&& id.take(table.len() as int) == table
    &&& id[table.len() as int] == ':'
    &&& forall|i: int| table.len() < i < id.len() ==> is_lower_hex(#[trigger] id[i])
}

/// Makes a new full record id `{table}:{32 hex digits}` from a random UUID;
/// the key holds no character that would need quoting.
pub fn new_record_id(table: &str) -> (res: String)
    ensures
        is_new_record_id(table@, res@),
{
    let mut id = owned(table);
    push_char(&mut id, ':');
    let hex = random_uuid_hex();
    push_str(&mut id, hex.as_str());
    proof {
        assert(id@.take(table@.len() as int) =~= table@);
        assert forall|i: int| table@.len() < i < id@.len() implies is_lower_hex(#[trigger] id@[i]) by {
            assert(id@[i] == hex@[i - table@.len() - 1]);
        }
    }
    id
}

/// The table names used by this crate's new ids: they hold no `:` and do not
/// start with a backtick.
pub open spec fn plain_table(table: Seq<char>) -> bool {
    &&& table.len() == 0 || table[0] != '`'
    &&& forall|i: int| 0 <= i < table.len() ==> #[trigger] table[i] != ':'
}

/// A new record id parses back into its table and its hexadecimal key: it
/// splits at the `:` after the table, and the key is not backtick-wrapped, so
/// `record_id` returns the table and key unchanged.
pub proof fn lemma_new_record_id_round_trip(table: Seq<char>, id: Seq<char>)
    requires
        plain_table(table),
        is_new_record_id(table, id),
    ensures
        id.len() == 0 || id[0] != '`',
        plain_split(id) == Some((table, id.skip(table.len() as int + 1))),
        !backtick_wrapped(id.skip(table.len() as int + 1)),
{
    let n = table.len() as int;
    assert forall|j: int| 0 <= j < n implies id[j] != ':' by {
        assert(id[j] == id.take(n)[j]);
    }
    if n > 0 {
        assert(id[0] == id.take(n)[0]);
    }
    lemma_next_index(id, 0, ':');
    lemma_next_index_at(id, 0, n, ':');
    let key = id.skip(n + 1);
    assert(key[0] == id[n + 1]);
    assert(is_lower_hex(id[n + 1]));
}

/// A value bound to a query parameter.
pub enum QueryValue {
    Text(String),
    Int(i64),
    /// A record id (never bound as a bare string: a string does not match
    /// an id field).
    Record(RecordRef),
    /// A string, or NONE.
    OptText(Option<String>),
    /// Order lines, stored as an array of objects.
    Items(Vec<crate::models::order::OrderItem>),
}

/// A named query parameter (`$name` in the query text).
pub struct QueryParam {
    pub name: &'static str,
    pub value: QueryValue,
}

/// A query and the values bound to its parameters.
pub struct DbQuery {
    pub sql: String,
    pub params: Vec<QueryParam>,
}

/// `p` is `$name` bound to the text `v`.
pub open spec fn is_text_param(p: QueryParam, name: Seq<char>, v: Seq<char>) -> bool {
    p.name@ == name && (p.value matches QueryValue::Text(t) && t@ == v)
}

/// `p` is `$name` bound to the integer `v`.
pub open spec fn is_int_param(p: QueryParam, name: Seq<char>, v: int) -> bool {
    p.name@ == name && (p.value matches QueryValue::Int(i) && i == v)
}

/// `p` is `$name` bound to the record id that `id` parses into.
pub open spec fn is_record_param(p: QueryParam, name: Seq<char>, id: Seq<char>) -> bool {
    p.name@ == name && (p.value matches QueryValue::Record(r)
        && parse_simple_result(id) == Some((r.table@, r.key@)))
}

/// A text parameter.
pub fn text_param(name: &'static str, v: &str) -> (res: QueryParam)
    ensures
        is_text_param(res, name@, v@),
{
    QueryParam { name, value: QueryValue::Text(owned(v)) }
}

/// An integer parameter.
pub fn int_param(name: &'static str, v: i64) -> (res: QueryParam)
    ensures
        is_int_param(res, name@, v as int),
{
    QueryParam { name, value: QueryValue::Int(v) }
}

/// The parameter `name` bound to the record id parsed from `id`.
pub fn record_param(name: &'static str, id: &str) -> (res: Result<QueryParam, String>)
    ensures
        match res {
            Ok(p) => is_record_param(p, name@, id@),
            Err(_) => parse_simple_result(id@) is None,
        },
{
    match record_id(id) {
        Ok(r) => Ok(QueryParam { name, value: QueryValue::Record(r) }),
        Err(e) => Err(e),
    }
}

/// A query whose only parameter is `$id`, the record id parsed from `id`;
/// an error when `id` does not parse.
pub(crate) fn by_record_id(sql: &str, id: &str) -> (res: Result<DbQuery, String>)
    ensures
        match res {
            Ok(q) => q.sql@ == sql@ && q.params@.len() == 1 && is_record_param(q.params@[0], "id"@, id@),
            Err(_) => parse_simple_result(id@) is None,
        },
{
    let p = record_param("id", id)?;
    let mut params: Vec<QueryParam> = Vec::new();
    params.push(p);
    Ok(DbQuery { sql: owned(sql), params })
}

/// Offset of the first row of `page` (1-based) for pages of `page_size`
/// rows, as the query's signed START value.
pub fn page_start(page: u64, page_size: u64) -> (res: i64)
    requires
        page >= 1,
        (page - 1) * page_size <= u64::MAX,
    ensures
        res == ((page - 1) * page_size) as i64,
{
    let rows: u64 = (page - 1) * page_size;
    rows as i64
}

} // verus!
