//! Decimal numerals: what a run of digits is worth, and how a number is
//! written.

use vstd::prelude::*;
use vstd::string::*;
use crate::error::SteamIdError;

verus! {

/// Whether a character is one of the ten decimal digits.
pub open spec fn is_digit(c: char) -> bool {
    '0' <= c <= '9'
}

/// Whether a text holds decimal digits only.
pub open spec fn all_digits(s: Seq<char>) -> bool {
    forall|i: int| 0 <= i < s.len() ==> is_digit(#[trigger] s[i])
}

/// Whether a text holds at least one character, and digits only.
pub open spec fn is_number(s: Seq<char>) -> bool {
    s.len() > 0 && all_digits(s)
}

/// What a decimal digit is worth.
pub open spec fn digit_value(c: char) -> nat {
    (c as int - '0' as int) as nat
}

/// The character that writes a number below ten.
pub open spec fn digit_char(d: nat) -> char {
    if d == 0 {
        '0'
    } else if d == 1 {
        '1'
    } else if d == 2 {
        '2'
    } else if d == 3 {
        '3'
    } else if d == 4 {
        '4'
    } else if d == 5 {
        '5'
    } else if d == 6 {
        '6'
    } else if d == 7 {
        '7'
    } else if d == 8 {
        '8'
    } else {
        '9'
    }
}

/// What a run of decimal digits is worth, most significant digit first. The
/// empty run is worth nothing.
pub open spec fn decimal_value(s: Seq<char>) -> nat
    decreases s.len(),
{
    if s.len() == 0 {
        0
    } else {
        decimal_value(s.drop_last()) * 10 + digit_value(s.last())
    }
}

/// How a number is written: in decimal, without sign or leading zeros.
pub open spec fn decimal_text(n: nat) -> Seq<char>
    decreases n,
{
    if n < 10 {
        seq![digit_char(n)]
    } else {
        decimal_text(n / 10).push(digit_char(n % 10))
    }
}

/// Where the longest run of digits that starts at `from` ends: the index of
/// the first character at or after `from` that is no digit, or the length of
/// the text.
pub open spec fn digits_end(s: Seq<char>, from: int) -> int
    decreases s.len() - from,
{
    if 0 <= from < s.len() && is_digit(s[from]) {
        digits_end(s, from + 1)
    } else {
        from
    }
}

/// A number as far as it stays within a limit.
pub open spec fn capped(value: nat, limit: u64) -> Option<u64> {
    if value <= limit {
        Some(value as u64)
    } else {
        None
    }
}

/// The number that a text stands for in the raw numeric form, or why it
/// stands for none.
pub open spec fn decimal_reading(s: Seq<char>) -> Result<u64, SteamIdError> {
    if !is_number(s) {
        Err(SteamIdError::ParseError)
    } else if decimal_value(s) > u64::MAX {
        Err(SteamIdError::Overflow)
    } else {
        Ok(decimal_value(s) as u64)
    }
}

/// The written form of a number holds digits only, and at least one.
pub proof fn lemma_decimal_text_digits(n: nat)
    ensures
        decimal_text(n).len() >= 1,
        all_digits(decimal_text(n)),
    decreases n,
{
    if n >= 10 {
        lemma_decimal_text_digits(n / 10);
    }
}

/// Reading what was written gives the number back.
pub proof fn lemma_decimal_round_trip(n: nat)
    ensures
        decimal_value(decimal_text(n)) == n,
    decreases n,
{
    if n < 10 {
        let s = decimal_text(n);
        assert(s.drop_last().len() == 0);
        assert(decimal_value(s.drop_last()) == 0);
    } else {
        lemma_decimal_round_trip(n / 10);
        let s = decimal_text(n);
        assert(s.drop_last() =~= decimal_text(n / 10));
    }
}

/// A run of digits that does not open with `0` is worth at least one.
pub proof fn lemma_decimal_value_positive(s: Seq<char>)
    requires
        is_number(s),
        s[0] != '0',
    ensures
        decimal_value(s) >= 1,
    decreases s.len(),
{
    if s.len() > 1 {
        assert(s.drop_last()[0] == s[0]);
        lemma_decimal_value_positive(s.drop_last());
    } else {
        assert(decimal_value(s.drop_last()) == 0);
    }
}

/// Writing what was read gives the text back, for a number written without
/// leading zeros: `0` itself, or digits of which the first is not `0`.
pub proof fn lemma_decimal_text_of_value(s: Seq<char>)
    requires
        is_number(s),
        s.len() == 1 || s[0] != '0',
    ensures
        decimal_text(decimal_value(s)) == s,
    decreases s.len(),
{
    let init = s.drop_last();
    if s.len() == 1 {
        assert(decimal_value(init) == 0);
        assert(decimal_text(decimal_value(s)) =~= s);
    } else {
        assert(init[0] == s[0]);
        assert forall|i: int| 0 <= i < init.len() implies is_digit(#[trigger] init[i]) by {
            assert(init[i] == s[i]);
        }
        lemma_decimal_value_positive(init);
        lemma_decimal_text_of_value(init);
        assert(decimal_text(decimal_value(s)) =~= s);
    }
}

/// A text of digits that stands for a 64-bit number is read as that number.
pub proof fn lemma_decimal_reading_of_text(n: u64)
    ensures
        decimal_reading(decimal_text(n as nat)) == Ok::<u64, SteamIdError>(n),
{
    lemma_decimal_text_digits(n as nat);
    lemma_decimal_round_trip(n as nat);
}

/// A run of digits ends where the first character that is no digit stands.
pub proof fn lemma_digits_end(s: Seq<char>, from: int, end: int)
    requires
        0 <= from <= end <= s.len(),
        forall|j: int| from <= j < end ==> is_digit(#[trigger] s[j]),
        end == s.len() || !is_digit(s[end]),
    ensures
        digits_end(s, from) == end,
    decreases end - from,
{
    if from < end {
        lemma_digits_end(s, from + 1, end);
    }
}

/// The end of a run lies within the text, and all before it are digits.
pub proof fn lemma_digits_end_bounds(s: Seq<char>, from: int)
    requires
        0 <= from <= s.len(),
    ensures
        from <= digits_end(s, from) <= s.len(),
        forall|j: int| from <= j < digits_end(s, from) ==> is_digit(#[trigger] s[j]),
        digits_end(s, from) == s.len() || !is_digit(s[digits_end(s, from)]),
    decreases s.len() - from,
{
    if from < s.len() && is_digit(s[from]) {
        lemma_digits_end_bounds(s, from + 1);
    }
}

/// A text in which every character is a digit ends its first run of digits
/// at its own end, and no other text does.
pub proof fn lemma_all_digits_run(s: Seq<char>)
    ensures
        all_digits(s) <==> digits_end(s, 0) == s.len(),
{
    lemma_digits_end_bounds(s, 0);
}

/// Digits are ASCII characters.
pub proof fn lemma_digits_are_ascii(s: Seq<char>)
    requires
        all_digits(s),
    ensures
        vstd::utf8::is_ascii_chars(s),
{
}

/// One more digit at the end of a run: ten times what the run was worth,
/// plus the digit.
pub proof fn lemma_decimal_value_step(s: Seq<char>, from: int, pos: int)
    requires
        0 <= from <= pos < s.len(),
    ensures
        decimal_value(s.subrange(from, pos + 1)) == decimal_value(s.subrange(from, pos)) * 10
            + digit_value(s[pos]),
{
    let longer = s.subrange(from, pos + 1);
    assert(longer.drop_last() =~= s.subrange(from, pos));
    assert(longer.last() == s[pos]);
}

/// The length of a text of ASCII characters.
pub(crate) fn ascii_len(text: &str) -> (n: usize)
    requires
        text.is_ascii(),
    ensures
        n == text@.len(),
{
    proof {
        is_ascii_spec_bytes(text);
    }
    text.as_bytes().len()
}

/// The character at an index of a text of ASCII characters.
pub(crate) fn ascii_at(text: &str, i: usize) -> (c: char)
    requires
        text.is_ascii(),
        i < text@.len(),
    ensures
        c == text@[i as int],
{
    let b: u8 = text.get_ascii(i);
    b as char
}

/// The one-character text that writes a number below ten.
pub(crate) fn digit_str(d: u8) -> (r: &'static str)
    requires
        d < 10,
    ensures
        r@ == seq![digit_char(d as nat)],
{
    proof {
        reveal_strlit("0");
        reveal_strlit("1");
        reveal_strlit("2");
        reveal_strlit("3");
        reveal_strlit("4");
        reveal_strlit("5");
        reveal_strlit("6");
        reveal_strlit("7");
        reveal_strlit("8");
        reveal_strlit("9");
    }
    let r = match d {
        0 => "0",
        1 => "1",
        2 => "2",
        3 => "3",
        4 => "4",
        5 => "5",
        6 => "6",
        7 => "7",
        8 => "8",
        _ => "9",
    };
    assert(r@ =~= seq![digit_char(d as nat)]);
    r
}

/// Writes a number in decimal at the end of a text.
pub fn push_decimal(out: &mut String, n: u64)
    ensures
        final(out)@ == old(out)@ + decimal_text(n as nat),
    decreases n,
{
    if n >= 10 {
        push_decimal(out, n / 10);
    }
    out.append(digit_str((n % 10) as u8));
    assert(final(out)@ =~= old(out)@ + decimal_text(n as nat));
}

/// Writes a number in decimal.
pub fn format_decimal(n: u64) -> (r: String)
    ensures
        r@ == decimal_text(n as nat),
{
    let mut out = String::new();
    push_decimal(&mut out, n);
    assert(out@ =~= decimal_text(n as nat));
    out
}

/// Whether a digit stands at an index of a text.
pub(crate) fn digit_at(text: &str, len: usize, i: usize) -> (b: bool)
    requires
        text.is_ascii(),
        len == text@.len(),
    ensures
        b == (i < len && is_digit(text@[i as int])),
{
    if i < len {
        let c = ascii_at(text, i);
        c >= '0' && c <= '9'
    } else {
        false
    }
}

/// Reads the longest run of digits that starts at `from`. Gives where the
/// run ends and what it is worth, or `None` for a worth above `limit`.
pub(crate) fn scan_number(text: &str, from: usize, limit: u64) -> (r: (usize, Option<u64>))
    requires
        text.is_ascii(),
        from <= text@.len(),
    ensures
        r.0 == digits_end(text@, from as int),
        from <= r.0 <= text@.len(),
        r.1 == capped(decimal_value(text@.subrange(from as int, r.0 as int)), limit),
{
    let len = ascii_len(text);
    let mut pos: usize = from;
    let mut acc: u64 = 0;
    let mut over = false;
    while digit_at(text, len, pos)
        invariant
            text.is_ascii(),
            len == text@.len(),
            from <= pos <= len,
            forall|j: int| from <= j < pos ==> is_digit(#[trigger] text@[j]),
            !over ==> acc == decimal_value(text@.subrange(from as int, pos as int)) && acc
                <= limit,
            over ==> decimal_value(text@.subrange(from as int, pos as int)) > limit,
        decreases len - pos,
    {
        let c = ascii_at(text, pos);
        let d: u8 = c as u8 - 48;
        proof {
            lemma_decimal_value_step(text@, from as int, pos as int);
            assert(d == digit_value(c));
        }
        if !over {
            let next: u128 = acc as u128 * 10 + d as u128;
            if next > limit as u128 {
                over = true;
            } else {
                acc = next as u64;
            }
        }
        pos = pos + 1;
    }
    proof {
        lemma_digits_end(text@, from as int, pos as int);
    }
    if over {
        (pos, None)
    } else {
        (pos, Some(acc))
    }
}

/// Reads the raw numeric form: a text of decimal digits that stands for a
/// 64-bit number. Any other character, or no character at all, is a
/// `ParseError`; a number above 64 bits is an `Overflow`.
pub fn parse_decimal(text: &str) -> (r: Result<u64, SteamIdError>)
    ensures
        r == decimal_reading(text@),
{
    if !text.is_ascii() {
        proof {
            if all_digits(text@) {
                lemma_digits_are_ascii(text@);
            }
        }
        return Err(SteamIdError::ParseError);
    }
    let len = ascii_len(text);
    let (end, value) = scan_number(text, 0, u64::MAX);
    proof {
        lemma_all_digits_run(text@);
        assert(text@.subrange(0, len as int) =~= text@);
    }
    if len == 0 || end != len {
        return Err(SteamIdError::ParseError);
    }
    match value {
        Some(v) => Ok(v),
        None => Err(SteamIdError::Overflow),
    }
}

} // verus!
