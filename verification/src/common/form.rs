//! Query-string parsing and redirect-target validation.

use vstd::prelude::*;
use crate::common::constant::{error_i18n_key, error_key_for};
use crate::text::{
    chars_of, find_from, lemma_next_index, lemma_next_index_at, lemma_next_index_none, next_index, owned, range_eq, str_eq, string_of_range,
    sub_vec,
};

verus! {

/// How one `&`-separated piece of a query string yields a value.
pub ghost enum SegmentRule {
    /// `key=value`: split at the first `=`, keep the value when the part
    /// before it is the key.
    Key(Seq<char>),
    /// `prefix...`: keep what follows the prefix.
    Prefix(Seq<char>),
}

/// The value a piece of a query string yields under a rule, if any.
pub open spec fn segment_value(rule: SegmentRule, seg: Seq<char>) -> Option<Seq<char>> {
    match rule {
        SegmentRule::Key(key) => {
            let p = next_index(seg, 0, '=');
            if p < seg.len() && seg.take(p) == key {
                Some(seg.skip(p + 1))
            } else {
                None
            }
        },
        SegmentRule::Prefix(prefix) => {
            if seg.len() >= prefix.len() && seg.take(prefix.len() as int) == prefix {
                Some(seg.skip(prefix.len() as int))
            } else {
                None
            }
        },
    }
}

/// The value of the first piece, from the one starting at `start` on, of the
/// `&`-separated query `q` that yields one under `rule`.
pub open spec fn first_value_from(q: Seq<char>, start: int, rule: SegmentRule) -> Option<Seq<char>>
    decreases q.len() - start,
{
    if start < 0 || start > q.len() {
        None
    } else {
        let end = next_index(q, start, '&');
        proof {
            lemma_next_index(q, start, '&');
        }
        match segment_value(rule, q.subrange(start, end)) {
            Some(v) => Some(v),
            None => if end < q.len() {
                first_value_from(q, end + 1, rule)
            } else {
                None
            },
        }
    }
}

/// The value of the first `key=value` piece of the query `q` for `key`.
pub open spec fn query_lookup(q: Seq<char>, key: Seq<char>) -> Option<Seq<char>> {
    first_value_from(q, 0, SegmentRule::Key(key))
}

/// The value of the first piece of the query `q` that starts with `error=`.
pub open spec fn error_param(q: Seq<char>) -> Option<Seq<char>> {
    first_value_from(q, 0, SegmentRule::Prefix("error="@))
}

enum Matcher {
    Key(Vec<char>),
    Prefix(Vec<char>),
}

impl Matcher {
    spec fn rule(&self) -> SegmentRule {
        match self {
            Matcher::Key(k) => SegmentRule::Key(k@),
            Matcher::Prefix(p) => SegmentRule::Prefix(p@),
        }
    }

    fn value(&self, seg: &Vec<char>) -> (res: Option<String>)
        ensures
            match res {
                Some(v) => segment_value(self.rule(), seg@) == Some(v@),
                None => segment_value(self.rule(), seg@) is None,
            },
    {
        match self {
            Matcher::Key(k) => {
                let p = find_from(seg, 0, '=');
                proof {
                    lemma_next_index(seg@, 0, '=');
                }
                if p < seg.len() && range_eq(seg, 0, p, k) {
                    assert(seg@.subrange(0, p as int) == seg@.take(p as int));
                    let v = string_of_range(seg, p + 1, seg.len());
                    assert(v@ == seg@.skip(p + 1));
                    Some(v)
                } else {
                    assert(p < seg@.len() ==> seg@.subrange(0, p as int) == seg@.take(p as int));
                    None
                }
            },
            Matcher::Prefix(pre) => {
                if seg.len() >= pre.len() && range_eq(seg, 0, pre.len(), pre) {
                    assert(seg@.subrange(0, pre@.len() as int) == seg@.take(pre@.len() as int));
                    let v = string_of_range(seg, pre.len(), seg.len());
                    assert(v@ == seg@.skip(pre@.len() as int));
                    Some(v)
                } else {
                    assert(seg@.len() >= pre@.len() ==> seg@.subrange(0, pre@.len() as int)
                        == seg@.take(pre@.len() as int));
                    None
                }
            },
        }
    }
}

fn first_value(q: &Vec<char>, m: &Matcher) -> (res: Option<String>)
    ensures
        match res {
            Some(v) => first_value_from(q@, 0, m.rule()) == Some(v@),
            None => first_value_from(q@, 0, m.rule()) is None,
        },
{
    let mut start: usize = 0;
    loop
        invariant
            start <= q@.len(),
            first_value_from(q@, 0, m.rule()) == first_value_from(q@, start as int, m.rule()),
        decreases q@.len() - start,
    {
        let end = find_from(q, start, '&');
        proof {
            lemma_next_index(q@, start as int, '&');
        }
        let seg = sub_vec(q, start, end);
        match m.value(&seg) {
            Some(v) => {
                return Some(v);
            },
            None => {
                if end < q.len() {
                    start = end + 1;
                } else {
                    return None;
                }
            },
        }
    }
}

/// The value of query parameter `key` in the query string `query`: the part
/// after the first `=` of the first `&`-separated piece whose part before
/// that `=` is `key`.
pub fn query_param(query: &str, key: &str) -> (res: Option<String>)
    ensures
        match res {
            Some(v) => query_lookup(query@, key@) == Some(v@),
            None => query_lookup(query@, key@) is None,
        },
{
    let q = chars_of(query);
    let m = Matcher::Key(chars_of(key));
    first_value(&q, &m)
}

/// The i18n key of the message to show for the query string `query`: the
/// value of its first piece that starts with `error=`, if `keys` lists that
/// value, mapped through the error-code table.
pub fn error_message_key(query: &str, keys: &[&str]) -> (res: Option<&'static str>)
    ensures
        match res {
            Some(k) => exists|e: Seq<char>| {
                &&& error_param(query@) == Some(e)
                &&& exists|i: int| 0 <= i < keys@.len() && #[trigger] keys@[i]@ == e
                &&& error_key_for(e) == Some(k@)
            },
            None => match error_param(query@) {
                Some(e) => (forall|i: int| 0 <= i < keys@.len() ==> #[trigger] keys@[i]@ != e)
                    || error_key_for(e) is None,
                None => true,
            },
        },
{
    let q = chars_of(query);
    let m = Matcher::Prefix(chars_of("error="));
    let err = match first_value(&q, &m) {
        Some(e) => e,
        None => {
            return None;
        },
    };
    assert(error_param(query@) == Some(err@));
    let mut i: usize = 0;
    while i < keys.len()
        invariant
            error_param(query@) == Some(err@),
            i <= keys@.len(),
            forall|j: int| 0 <= j < i ==> #[trigger] keys@[j]@ != err@,
        decreases keys@.len() - i,
    {
        if str_eq(keys[i], err.as_str()) {
            let res = error_i18n_key(err.as_str());
            proof {
                assert(keys@[i as int]@ == err@);
                if let Some(k) = res {
                    assert({
                        &&& error_param(query@) == Some(err@)
                        &&& exists|j: int| 0 <= j < keys@.len() && #[trigger] keys@[j]@ == err@
                        &&& error_key_for(err@) == Some(k@)
                    });
                }
            }
            return res;
        }
        i = i + 1;
    }
    None
}

/// A query made of the single pair `key=value` gives `value` back for `key`,
/// when the key holds no `=` or `&` and the value no `&`.
pub proof fn lemma_single_pair_lookup(key: Seq<char>, value: Seq<char>)
    requires
        forall|i: int| 0 <= i < key.len() ==> #[trigger] key[i] != '=' && key[i] != '&',
        forall|i: int| 0 <= i < value.len() ==> #[trigger] value[i] != '&',
    ensures
        query_lookup(key + seq!['='] + value, key) == Some(value),
{
    let q = key + seq!['='] + value;
    assert forall|j: int| 0 <= j < q.len() implies q[j] != '&' by {
        if j < key.len() {
            assert(q[j] == key[j]);
        } else if j > key.len() {
            assert(q[j] == value[j - key.len() - 1]);
        }
    }
    lemma_next_index_none(q, 0, '&');
    assert(q.subrange(0, q.len() as int) =~= q);
    assert forall|j: int| 0 <= j < key.len() implies q[j] != '=' by {
        assert(q[j] == key[j]);
    }
    lemma_next_index_at(q, 0, key.len() as int, '=');
    assert(q.take(key.len() as int) =~= key);
    assert(q.skip(key.len() as int + 1) =~= value);
}

/// A redirect target that stays on this site: it starts with one `/` (not
/// `//` or `/\`, which a browser reads as another host) and holds only
/// printable ASCII from space up to but not including `~`, so it cannot
/// break a header.
pub open spec fn is_safe_next(s: Seq<char>) -> bool {
    &&& s.len() > 0
    &&& s[0] == '/'
    &&& !(s.len() > 1 && (s[1] == '/' || s[1] == '\\'))
    &&& forall|i: int| 0 <= i < s.len() ==> ' ' <= #[trigger] s[i] && s[i] < '~'
}

/// Which redirect targets are safe, as documented: every path that starts
/// with a single `/` (not `//` or `/\`) and whose characters all lie from
/// space up to but not including `~` is accepted, colons, queries and the
/// like included; nothing else is.
pub proof fn lemma_safe_next_rule(s: Seq<char>)
    ensures
        is_safe_next(s) <==> {
            &&& s.len() > 0
            &&& s[0] == '/'
            &&& s.len() > 1 ==> s[1] != '/' && s[1] != '\\'
            &&& forall|i: int| #![trigger s[i]] 0 <= i < s.len() ==> ' ' <= s[i] && s[i] < '~'
        },
{
}

/// Appending any printable character (space up to but not including `~`)
/// to a safe target of two or more characters keeps it safe, and so does
/// cutting such a target short after its second character.
pub proof fn lemma_safe_next_extend(s: Seq<char>, c: char, n: int)
    requires
        is_safe_next(s),
        s.len() >= 2,
        ' ' <= c && c < '~',
        2 <= n <= s.len(),
    ensures
        is_safe_next(s.push(c)),
        is_safe_next(s.take(n)),
{
    assert forall|i: int| 0 <= i < s.push(c).len() implies ' ' <= #[trigger] s.push(c)[i] && s.push(c)[i] < '~' by {
        if i < s.len() {
            assert(s.push(c)[i] == s[i]);
        }
    }
    assert forall|i: int| 0 <= i < s.take(n).len() implies ' ' <= #[trigger] s.take(n)[i] && s.take(n)[i] < '~' by {
        assert(s.take(n)[i] == s[i]);
    }
}

/// Checks a post-login redirect target: returns it unchanged when it is a
/// same-site relative path without control or non-ASCII characters.
pub fn safe_next(next: &str) -> (res: Option<String>)
    ensures
        match res {
            Some(v) => is_safe_next(next@) && v@ == next@,
            None => !is_safe_next(next@),
        },
{
    let v = chars_of(next);
    if v.len() == 0 || v[0] != '/' {
        return None;
    }
    if v.len() > 1 && (v[1] == '/' || v[1] == '\\') {
        return None;
    }
    let mut i: usize = 0;
    while i < v.len()
        invariant
            v@ == next@,
            i <= v@.len(),
            forall|j: int| 0 <= j < i ==> ' ' <= #[trigger] v@[j] && v@[j] < '~',
        decreases v@.len() - i,
    {
        let c = v[i];
        if !(c >= ' ' && c < '~') {
            assert(!(' ' <= next@[i as int] && next@[i as int] < '~'));
            return None;
        }
        i = i + 1;
    }
    Some(owned(next))
}

} // verus!
