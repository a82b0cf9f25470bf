//! Money formatting in whole integers.

use vstd::prelude::*;
use crate::text::{decimal, digit_char, digits_value, lemma_decimal_value, lemma_digit_char, push_char, push_decimal};

verus! {

/// `$D.CC` for a non-negative amount of cents: whole dollars in decimal, then
/// exactly two digits of cents.
pub open spec fn dollars_text(abs: nat) -> Seq<char> {
    seq!['$'] + decimal(abs / 100) + seq!['.', digit_char((abs % 100) / 10), digit_char(abs % 10)]
}

/// The text `format_cents` produces for an amount of cents: a `-` for
/// negative amounts, then the dollars text of the absolute value.
pub open spec fn cents_text(cents: int) -> Seq<char> {
    if cents < 0 {
        seq!['-'] + dollars_text((-cents) as nat)
    } else {
        dollars_text(cents as nat)
    }
}

/// Formats an amount in cents as a dollar string, e.g. 1299 -> "$12.99",
/// -5 -> "-$0.05". Integer arithmetic only.
pub fn format_cents(cents: i64) -> (res: String)
    ensures
        res@ == cents_text(cents as int),
{
    let mut s = String::new();
    if cents < 0 {
        push_char(&mut s, '-');
    }
    let abs: u64 = crate::text::unsigned_abs(cents);
    assert(abs as int == if cents < 0 { -(cents as int) } else { cents as int });
    push_char(&mut s, '$');
    push_decimal(&mut s, abs / 100);
    push_char(&mut s, '.');
    let rem = abs % 100;
    push_decimal_two(&mut s, rem);
    assert(s@ =~= cents_text(cents as int));
    s
}

fn push_decimal_two(s: &mut String, rem: u64)
    requires
        rem < 100,
    ensures
        final(s)@ == old(s)@ + seq![digit_char(rem as nat / 10), digit_char(rem as nat % 10)],
{
    let ghost before = s@;
    push_decimal_digit(s, rem / 10);
    push_decimal_digit(s, rem % 10);
    assert(s@ =~= before + seq![digit_char(rem as nat / 10), digit_char(rem as nat % 10)]);
}

fn push_decimal_digit(s: &mut String, d: u64)
    requires
        d < 10,
    ensures
        final(s)@ == old(s)@.push(digit_char(d as nat)),
{
    push_decimal(s, d);
    assert(decimal(d as nat) == seq![digit_char(d as nat)]);
}

/// A negative amount reads as a minus sign followed by the text of the
/// positive amount.
pub proof fn lemma_negative_amount(cents: int)
    requires
        cents > 0,
    ensures
        cents_text(-cents) == seq!['-'] + cents_text(cents),
{
}

/// The text of an amount loses nothing: after the sign and `$`, the whole
/// dollars read back as `|cents| / 100`, a `.` follows, and exactly two
/// digits read back as `|cents| % 100`.
pub proof fn lemma_cents_text_reads_back(cents: int)
    ensures
        ({
            let abs = if cents < 0 { -cents } else { cents };
            let text = cents_text(cents);
            let body = if cents < 0 { text.drop_first() } else { text };
            let dollars = body.subrange(1, body.len() - 3);
            &&& cents < 0 ==> text[0] == '-'
            &&& body[0] == '$'
            &&& body[body.len() - 3] == '.'
            &&& digits_value(dollars) == abs / 100
            &&& digits_value(body.skip(body.len() - 2)) == abs % 100
            &&& digits_value(dollars) * 100 + digits_value(body.skip(body.len() - 2)) == abs
        }),
{
    let abs = if cents < 0 { -cents } else { cents };
    let text = cents_text(cents);
    let body = if cents < 0 { text.drop_first() } else { text };
    lemma_decimal_value((abs / 100) as nat);
    assert(body =~= dollars_text(abs as nat));
    let d = decimal((abs / 100) as nat);
    assert(body.subrange(1, body.len() - 3) =~= d);
    let two = body.skip(body.len() - 2);
    assert(two =~= seq![digit_char(((abs % 100) / 10) as nat), digit_char((abs % 10) as nat)]);
    assert(two.drop_last() =~= seq![digit_char(((abs % 100) / 10) as nat)]);
    assert(two.drop_last().drop_last() =~= Seq::<char>::empty());
    assert(abs % 10 == (abs % 100) % 10);
    lemma_digit_char(((abs % 100) / 10) as nat);
    lemma_digit_char((abs % 10) as nat);
    assert(digits_value(two.drop_last().drop_last()) == 0);
    assert(digits_value(two.drop_last()) == (abs % 100) / 10);
    assert(digits_value(two) == ((abs % 100) / 10) * 10 + abs % 10);
}

} // verus!
