//! Character-level string building blocks shared by the rest of the crate.

use vstd::prelude::*;

verus! {

/// Appends one character to a `String` (`String::push`: "Appends the given
/// char to the end of this String"). Nothing else of the string changes.
#[verifier::external_body]
pub(crate) fn push_char(s: &mut String, c: char)
    ensures
        final(s)@ == old(s)@.push(c),
{
    s.push(c);
}

/// The ASCII digit that stands for `d` (taken modulo nothing: `d` must be < 10).
pub open spec fn digit_char(d: nat) -> char {
    if d == 0 { '0' }
    else if d == 1 { '1' }
    else if d == 2 { '2' }
    else if d == 3 { '3' }
    else if d == 4 { '4' }
    else if d == 5 { '5' }
    else if d == 6 { '6' }
    else if d == 7 { '7' }
    else if d == 8 { '8' }
    else { '9' }
}

/// Decimal notation of a natural number, most significant digit first,
/// without leading zeros (zero is written `0`).
pub open spec fn decimal(n: nat) -> Seq<char>
    decreases n,
{
    if n < 10 {
        seq![digit_char(n)]
    } else {
        decimal(n / 10).push(digit_char(n % 10))
    }
}

/// Decimal notation of an integer: a `-` in front of negative values.
pub open spec fn signed_decimal(n: int) -> Seq<char> {
    if n < 0 {
        seq!['-'] + decimal((-n) as nat)
    } else {
        decimal(n as nat)
    }
}

/// The number a string of ASCII digits stands for (most significant first).
pub open spec fn digits_value(s: Seq<char>) -> int
    decreases s.len(),
{
    if s.len() == 0 {
        0
    } else {
        digits_value(s.drop_last()) * 10 + (s[s.len() - 1] as int - '0' as int)
    }
}

/// The digit character of `d` has code `'0' + d`.
pub proof fn lemma_digit_char(d: nat)
    requires
        d < 10,
    ensures
        digit_char(d) as int - '0' as int == d,
{
    assert('0' as int == 48);
    assert('1' as int == 49);
    assert('2' as int == 50);
    assert('3' as int == 51);
    assert('4' as int == 52);
    assert('5' as int == 53);
    assert('6' as int == 54);
    assert('7' as int == 55);
    assert('8' as int == 56);
    assert('9' as int == 57);
}

/// Decimal notation reads back as the number it was made from.
pub proof fn lemma_decimal_value(n: nat)
    ensures
        digits_value(decimal(n)) == n,
        decimal(n).len() >= 1,
    decreases n,
{
    let s = decimal(n);
    if n < 10 {
        lemma_digit_char(n);
        assert(s.drop_last() =~= Seq::<char>::empty());
        assert(digits_value(s.drop_last()) == 0);
        assert(s[s.len() - 1] == digit_char(n));
    } else {
        lemma_digit_char(n % 10);
        lemma_decimal_value(n / 10);
        assert(s.drop_last() =~= decimal(n / 10));
        assert(s[s.len() - 1] == digit_char(n % 10));
        assert(n == (n / 10) * 10 + n % 10);
    }
}

fn digit(d: u64) -> (c: char)
    requires
        d < 10,
    ensures
        c == digit_char(d as nat),
{
    if d == 0 { '0' }
    else if d == 1 { '1' }
    else if d == 2 { '2' }
    else if d == 3 { '3' }
    else if d == 4 { '4' }
    else if d == 5 { '5' }
    else if d == 6 { '6' }
    else if d == 7 { '7' }
    else if d == 8 { '8' }
    else { '9' }
}

/// Appends the decimal notation of `n`.
pub fn push_decimal(s: &mut String, n: u64)
    ensures
        final(s)@ == old(s)@ + decimal(n as nat),
    decreases n,
{
    if n >= 10 {
        push_decimal(s, n / 10);
    }
    push_char(s, digit(n % 10));
    proof {
        if n >= 10 {
            assert(decimal(n as nat) == decimal((n / 10) as nat).push(digit_char((n % 10) as nat)));
        }
    }
}

/// Appends the decimal notation of a signed integer.
pub fn push_signed_decimal(s: &mut String, n: i64)
    ensures
        final(s)@ == old(s)@ + signed_decimal(n as int),
{
    if n < 0 {
        push_char(s, '-');
        let abs: u64 = unsigned_abs(n);
        push_decimal(s, abs);
    } else {
        push_decimal(s, n as u64);
    }
}

/// Absolute value of a signed integer as an unsigned one (defined on `i64::MIN` too).
pub fn unsigned_abs(n: i64) -> (res: u64)
    ensures
        res as int == if n < 0 { -(n as int) } else { n as int },
{
    if n < 0 {
        let m: i64 = -(n + 1);
        (m as u64) + 1
    } else {
        n as u64
    }
}

/// Appends a string slice.
pub fn push_str(s: &mut String, t: &str)
    ensures
        final(s)@ == old(s)@ + t@,
{
    s.append(t);
}

/// A new `String` holding the characters of `t`.
pub fn owned(t: &str) -> (res: String)
    ensures
        res@ == t@,
{
    String::from_str(t)
}

/// The first `n` characters of `s` (all of it when shorter).
pub open spec fn prefix_chars(s: Seq<char>, n: nat) -> Seq<char> {
    if s.len() <= n { s } else { s.take(n as int) }
}

/// The first `n` characters of `s`, as `s.chars().take(n).collect()` makes.
pub fn take_chars(s: &str, n: usize) -> (res: String)
    ensures
        res@ == prefix_chars(s@, n as nat),
{
    let v = chars_of(s);
    let end = if v.len() <= n { v.len() } else { n };
    let r = string_of_range(&v, 0, end);
    assert(v@.subrange(0, end as int) =~= prefix_chars(s@, n as nat));
    r
}

/// A character with the Unicode `White_Space` property, which is what
/// `char::is_whitespace` tests and what `str::trim` strips.
pub open spec fn is_white_space(c: char) -> bool {
    ||| '\u{9}' <= c && c <= '\u{d}'
    ||| c == ' '
    ||| c == '\u{85}'
    ||| c == '\u{a0}'
    ||| c == '\u{1680}'
    ||| '\u{2000}' <= c && c <= '\u{200a}'
    ||| c == '\u{2028}'
    ||| c == '\u{2029}'
    ||| c == '\u{202f}'
    ||| c == '\u{205f}'
    ||| c == '\u{3000}'
}

/// Whether a character has the Unicode `White_Space` property.
pub fn white_space(c: char) -> (res: bool)
    ensures
        res == is_white_space(c),
{
    ('\u{9}' <= c && c <= '\u{d}') || c == ' ' || c == '\u{85}' || c == '\u{a0}' || c == '\u{1680}'
        || ('\u{2000}' <= c && c <= '\u{200a}') || c == '\u{2028}' || c == '\u{2029}'
        || c == '\u{202f}' || c == '\u{205f}' || c == '\u{3000}'
}

/// Text that is empty once trimmed: nothing but white space.
pub open spec fn is_blank_text(s: Seq<char>) -> bool {
    forall|i: int| 0 <= i < s.len() ==> is_white_space(#[trigger] s[i])
}

/// Whether `s.trim()` is empty.
pub fn is_blank(s: &str) -> (res: bool)
    ensures
        res == is_blank_text(s@),
{
    let n = s.unicode_len();
    let mut i: usize = 0;
    while i < n
        invariant
            n == s@.len(),
            i <= n,
            forall|j: int| 0 <= j < i ==> is_white_space(#[trigger] s@[j]),
        decreases n - i,
    {
        if !white_space(s.get_char(i)) {
            return false;
        }
        i = i + 1;
    }
    true
}

/// The characters of an optional string slice.
pub open spec fn opt_chars(o: Option<&str>) -> Option<Seq<char>> {
    match o {
        Some(s) => Some(s@),
        None => None,
    }
}

/// `s` without its leading and trailing white space (what `str::trim`
/// leaves).
pub open spec fn trim_text(s: Seq<char>) -> Seq<char>
    decreases s.len(),
{
    if s.len() > 0 && is_white_space(s[0]) {
        trim_text(s.drop_first())
    } else if s.len() > 0 && is_white_space(s[s.len() - 1]) {
        trim_text(s.drop_last())
    } else {
        s
    }
}

proof fn lemma_trim_back(s: Seq<char>, hi: int)
    requires
        0 <= hi <= s.len(),
        s.len() > 0 ==> !is_white_space(s[0]),
        hi > 0,
        forall|j: int| hi <= j < s.len() ==> is_white_space(#[trigger] s[j]),
    ensures
        trim_text(s) == trim_text(s.take(hi)),
    decreases s.len() - hi,
{
    if hi < s.len() {
        assert(s.drop_last().take(hi) =~= s.take(hi));
        assert(s.drop_last()[0] == s[0]);
        lemma_trim_back(s.drop_last(), hi);
    } else {
        assert(s.take(hi) =~= s);
    }
}

proof fn lemma_trim_front(s: Seq<char>, lo: int)
    requires
        0 <= lo <= s.len(),
        forall|j: int| 0 <= j < lo ==> is_white_space(#[trigger] s[j]),
    ensures
        trim_text(s) == trim_text(s.skip(lo)),
    decreases lo,
{
    if lo > 0 {
        assert(s.drop_first().skip(lo - 1) =~= s.skip(lo));
        lemma_trim_front(s.drop_first(), lo - 1);
    } else {
        assert(s.skip(0) =~= s);
    }
}

/// `s.trim()`: `s` without leading and trailing white space.
pub fn trim(s: &str) -> (res: String)
    ensures
        res@ == trim_text(s@),
{
    let v = chars_of(s);
    let n = v.len();
    let mut lo: usize = 0;
    while lo < n && white_space(v[lo])
        invariant
            v@ == s@,
            n == v@.len(),
            lo <= n,
            forall|j: int| 0 <= j < lo ==> is_white_space(#[trigger] v@[j]),
        decreases n - lo,
    {
        lo = lo + 1;
    }
    proof {
        lemma_trim_front(s@, lo as int);
    }
    if lo == n {
        assert(s@.skip(lo as int) =~= Seq::<char>::empty());
        return String::new();
    }
    let mut hi: usize = n;
    while hi > lo + 1 && white_space(v[hi - 1])
        invariant
            v@ == s@,
            n == v@.len(),
            lo < n,
            lo + 1 <= hi <= n,
            !is_white_space(v@[lo as int]),
            forall|j: int| hi <= j < n ==> is_white_space(#[trigger] v@[j]),
        decreases hi - lo,
    {
        hi = hi - 1;
    }
    let ghost rest = s@.skip(lo as int);
    proof {
        assert forall|j: int| (hi - lo) <= j < rest.len() implies is_white_space(#[trigger] rest[j]) by {
            assert(rest[j] == v@[lo + j]);
        }
        assert(rest[0] == v@[lo as int]);
        lemma_trim_back(rest, (hi - lo) as int);
        assert(rest.take((hi - lo) as int) =~= v@.subrange(lo as int, hi as int));
        if hi - lo >= 1 {
            let t = v@.subrange(lo as int, hi as int);
            assert(t[0] == v@[lo as int]);
            assert(t[t.len() - 1] == v@[hi - 1]);
        }
    }
    let r = string_of_range(&v, lo, hi);
    proof {
        let t = v@.subrange(lo as int, hi as int);
        if hi - 1 > lo {
            assert(!is_white_space(v@[hi - 1]));
        }
        assert(!is_white_space(t[0]));
        assert(!is_white_space(t[t.len() - 1]));
        assert(trim_text(t) == t);
    }
    r
}

/// Character equality of two string slices.
pub fn str_eq(a: &str, b: &str) -> (res: bool)
    ensures
        res == (a@ == b@),
{
    let n = a.unicode_len();
    let m = b.unicode_len();
    if n != m {
        return false;
    }
    let mut i: usize = 0;
    while i < n
        invariant
            n == a@.len(),
            m == b@.len(),
            n == m,
            i <= n,
            forall|j: int| 0 <= j < i ==> a@[j] == b@[j],
        decreases n - i,
    {
        if a.get_char(i) != b.get_char(i) {
            return false;
        }
        i = i + 1;
    }
    assert(a@ =~= b@);
    true
}

/// The characters of a string slice, one per element.
pub fn chars_of(s: &str) -> (res: Vec<char>)
    ensures
        res@ == s@,
{
    let n = s.unicode_len();
    let mut v: Vec<char> = Vec::new();
    let mut i: usize = 0;
    while i < n
        invariant
            n == s@.len(),
            i <= n,
            v@ == s@.take(i as int),
        decreases n - i,
    {
        v.push(s.get_char(i));
        i = i + 1;
        assert(v@ =~= s@.take(i as int));
    }
    assert(s@.take(n as int) =~= s@);
    v
}

/// A new `String` holding `v[lo..hi]`.
pub fn string_of_range(v: &Vec<char>, lo: usize, hi: usize) -> (res: String)
    requires
        lo <= hi <= v@.len(),
    ensures
        res@ == v@.subrange(lo as int, hi as int),
{
    let mut s = String::new();
    let mut i = lo;
    while i < hi
        invariant
            lo <= i <= hi <= v@.len(),
            s@ == v@.subrange(lo as int, i as int),
        decreases hi - i,
    {
        push_char(&mut s, v[i]);
        i = i + 1;
        assert(s@ =~= v@.subrange(lo as int, i as int));
    }
    s
}

/// A copy of `v[lo..hi]`.
pub fn sub_vec(v: &Vec<char>, lo: usize, hi: usize) -> (res: Vec<char>)
    requires
        lo <= hi <= v@.len(),
    ensures
        res@ == v@.subrange(lo as int, hi as int),
{
    let mut r: Vec<char> = Vec::new();
    let mut i = lo;
    while i < hi
        invariant
            lo <= i <= hi <= v@.len(),
            r@ == v@.subrange(lo as int, i as int),
        decreases hi - i,
    {
        r.push(v[i]);
        i = i + 1;
        assert(r@ =~= v@.subrange(lo as int, i as int));
    }
    r
}

/// Whether `v[lo..hi]` holds exactly the characters of `w`.
pub fn range_eq(v: &Vec<char>, lo: usize, hi: usize, w: &Vec<char>) -> (res: bool)
    requires
        lo <= hi <= v@.len(),
    ensures
        res == (v@.subrange(lo as int, hi as int) == w@),
{
    if hi - lo != w.len() {
        return false;
    }
    let mut i: usize = 0;
    while i < w.len()
        invariant
            lo <= hi <= v@.len(),
            hi - lo == w@.len(),
            i <= w@.len(),
            forall|j: int| 0 <= j < i ==> v@[lo + j] == w@[j],
        decreases w@.len() - i,
    {
        if v[lo + i] != w[i] {
            assert(v@.subrange(lo as int, hi as int)[i as int] != w@[i as int]);
            return false;
        }
        i = i + 1;
    }
    assert(v@.subrange(lo as int, hi as int) =~= w@);
    true
}

/// Index of the first `c` in `s` at or after `start`, or `s.len()` when
/// there is none.
pub open spec fn next_index(s: Seq<char>, start: int, c: char) -> int
    decreases s.len() - start,
{
    if start >= s.len() {
        s.len() as int
    } else if s[start] == c {
        start
    } else {
        next_index(s, start + 1, c)
    }
}

/// `next_index` lands between `start` and the end, on a `c` unless at the
/// end, and skips no `c`.
pub proof fn lemma_next_index(s: Seq<char>, start: int, c: char)
    requires
        0 <= start <= s.len(),
    ensures
        start <= next_index(s, start, c) <= s.len(),
        next_index(s, start, c) < s.len() ==> s[next_index(s, start, c)] == c,
        forall|j: int| start <= j < next_index(s, start, c) ==> s[j] != c,
    decreases s.len() - start,
{
    if start < s.len() && s[start] != c {
        lemma_next_index(s, start + 1, c);
    }
}

/// `next_index` stops at the first `c`: when `s[n]` is `c` and nothing
/// between `start` and `n` is, it returns `n`.
pub proof fn lemma_next_index_at(s: Seq<char>, start: int, n: int, c: char)
    requires
        0 <= start <= n < s.len(),
        s[n] == c,
        forall|j: int| start <= j < n ==> s[j] != c,
    ensures
        next_index(s, start, c) == n,
    decreases n - start,
{
    if start < n {
        lemma_next_index_at(s, start + 1, n, c);
    }
}

/// Without any `c` from `start` on, `next_index` returns the length.
pub proof fn lemma_next_index_none(s: Seq<char>, start: int, c: char)
    requires
        0 <= start <= s.len(),
        forall|j: int| start <= j < s.len() ==> s[j] != c,
    ensures
        next_index(s, start, c) == s.len(),
    decreases s.len() - start,
{
    if start < s.len() {
        lemma_next_index_none(s, start + 1, c);
    }
}

/// Finds the first `c` in `v` at or after `start` (`v.len()` if none).
pub fn find_from(v: &Vec<char>, start: usize, c: char) -> (res: usize)
    requires
        start <= v@.len(),
    ensures
        res == next_index(v@, start as int, c),
{
    let mut i = start;
    while i < v.len() && v[i] != c
        invariant
            start <= i <= v@.len(),
            next_index(v@, start as int, c) == next_index(v@, i as int, c),
        decreases v@.len() - i,
    {
        i = i + 1;
    }
    i
}

/// `s` with every occurrence of the non-empty `pat` replaced by `to`,
/// matching from left to right without overlaps (what `str::replace` does).
pub open spec fn replace_all(s: Seq<char>, pat: Seq<char>, to: Seq<char>) -> Seq<char>
    decreases s.len(),
{
    if pat.len() == 0 || s.len() < pat.len() {
        s
    } else if s.take(pat.len() as int) == pat {
        to + replace_all(s.skip(pat.len() as int), pat, to)
    } else {
        seq![s[0]] + replace_all(s.drop_first(), pat, to)
    }
}

/// `s` with every occurrence of the non-empty `pat` replaced by `to`.
pub fn replace(s: &str, pat: &str, to: &str) -> (res: String)
    requires
        pat@.len() > 0,
    ensures
        res@ == replace_all(s@, pat@, to@),
{
    let v = chars_of(s);
    let p = chars_of(pat);
    let m = p.len();
    let n = v.len();
    let mut out = String::new();
    let mut i: usize = 0;
    assert(v@.skip(0) =~= v@);
    assert(out@ + replace_all(v@, p@, to@) =~= replace_all(v@, p@, to@));
    while i < n
        invariant
            v@ == s@,
            p@ == pat@,
            m == p@.len(),
            m > 0,
            n == v@.len(),
            i <= n,
            out@ + replace_all(v@.skip(i as int), p@, to@) == replace_all(v@, p@, to@),
        decreases n - i,
    {
        let ghost rest = v@.skip(i as int);
        if n - i >= m && range_eq(&v, i, i + m, &p) {
            assert(rest.take(m as int) =~= v@.subrange(i as int, (i + m) as int));
            assert(rest.skip(m as int) =~= v@.skip((i + m) as int));
            push_str(&mut out, to);
            i = i + m;
            assert(out@ + replace_all(v@.skip(i as int), p@, to@) =~= replace_all(v@, p@, to@));
        } else {
            proof {
                if rest.len() >= m {
                    assert(rest.take(m as int) =~= v@.subrange(i as int, (i + m) as int));
                }
                assert(rest.drop_first() =~= v@.skip(i + 1));
            }
            push_char(&mut out, v[i]);
            i = i + 1;
            assert(out@ + replace_all(v@.skip(i as int), p@, to@) =~= replace_all(v@, p@, to@));
        }
    }
    assert(v@.skip(n as int) =~= Seq::<char>::empty());
    out
}

} // verus!
