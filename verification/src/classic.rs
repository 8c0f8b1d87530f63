//! The classic dialect: `STEAM_`, a universe digit, a colon, the low bit of
//! the account number, a colon, and the rest of the account number in
//! decimal.

use vstd::prelude::*;
use vstd::string::*;
use crate::codec::{fields_of, lemma_unpack_pack, packed, MAX_ACCOUNT_NUMBER};
use crate::decimal::{
    all_digits, ascii_at, ascii_len, decimal_text, decimal_value, digit_char, digit_str,
    digit_value, is_digit, is_number, lemma_decimal_round_trip, lemma_decimal_text_digits,
    lemma_digits_end_bounds, push_decimal, scan_number,
};
use crate::error::SteamIdError;
use crate::kinds::{AccountType, Universe};
use crate::steam_id::{valid_raw, SteamID};

verus! {

/// The six characters that open every text of the classic dialect.
pub open spec fn classic_prefix() -> Seq<char> {
    seq!['S', 'T', 'E', 'A', 'M', '_']
}

/// Whether a text follows the grammar of the classic dialect: the prefix,
/// one digit, a colon, `0` or `1`, a colon, then digits to the end, at least
/// one.
pub open spec fn is_classic_form(s: Seq<char>) -> bool {
    &&& s.len() >= 11
    &&& classic_prefix().is_prefix_of(s)
    &&& is_digit(s[6])
    &&& s[7] == ':'
    &&& (s[8] == '0' || s[8] == '1')
    &&& s[9] == ':'
    &&& all_digits(s.subrange(10, s.len() as int))
}

/// The text made of a universe digit, a bit and the digits of the last
/// field, with the prefix and colons of the classic dialect around them.
pub open spec fn classic_shape(universe: char, bit: char, half: Seq<char>) -> Seq<char> {
    classic_prefix() + seq![universe, ':', bit, ':'] + half
}

/// The universe code that a universe digit of the classic dialect stands
/// for: `0` is read as the public universe.
pub open spec fn classic_universe(digit: nat) -> nat {
    if digit == 0 {
        1
    } else {
        digit
    }
}

/// The packed value that a text of the classic dialect stands for, or why it
/// stands for none. The account number is twice the last field plus the bit
/// before it; the account is an individual one with instance 1.
pub open spec fn classic_reading(s: Seq<char>) -> Result<u64, SteamIdError> {
    if !is_classic_form(s) {
        Err(SteamIdError::ParseError)
    } else if digit_value(s[6]) > 5 {
        Err(SteamIdError::InvalidUniverse)
    } else if decimal_value(s.subrange(10, s.len() as int)) * 2 + digit_value(s[8])
        > MAX_ACCOUNT_NUMBER {
        Err(SteamIdError::Overflow)
    } else {
        Ok(
            packed(
                (decimal_value(s.subrange(10, s.len() as int)) * 2 + digit_value(s[8])) as int,
                1,
                1,
                classic_universe(digit_value(s[6])) as int,
            ) as u64,
        )
    }
}

/// How a packed value is written in the classic dialect. Instance and
/// account type have no place in it.
pub open spec fn classic_text(raw: u64) -> Seq<char> {
    classic_shape(
        digit_char(fields_of(raw).universe as nat),
        digit_char((fields_of(raw).account_number % 2) as nat),
        decimal_text((fields_of(raw).account_number / 2) as nat),
    )
}

/// Every text shaped as the classic dialect asks follows its grammar, and
/// its digit, bit and last field are the ones it was made of.
pub proof fn lemma_classic_shape_is_form(universe: char, bit: char, half: Seq<char>)
    requires
        is_digit(universe),
        bit == '0' || bit == '1',
        is_number(half),
    ensures
        is_classic_form(classic_shape(universe, bit, half)),
        classic_shape(universe, bit, half)[6] == universe,
        classic_shape(universe, bit, half)[8] == bit,
        classic_shape(universe, bit, half).subrange(
            10,
            classic_shape(universe, bit, half).len() as int,
        ) == half,
{
    let s = classic_shape(universe, bit, half);
    assert(s.subrange(0, 6) =~= classic_prefix());
    assert(s.subrange(10, s.len() as int) =~= half);
}

/// Every text that follows the grammar of the classic dialect is shaped as
/// the dialect asks.
pub proof fn lemma_classic_form_is_shape(s: Seq<char>)
    requires
        is_classic_form(s),
    ensures
        s == classic_shape(s[6], s[8], s.subrange(10, s.len() as int)),
        is_number(s.subrange(10, s.len() as int)),
{
    let shaped = classic_shape(s[6], s[8], s.subrange(10, s.len() as int));
    assert(shaped.len() == s.len());
    assert forall|i: int| 0 <= i < s.len() implies s[i] == shaped[i] by {
        if i < 6 {
            assert(s.subrange(0, 6)[i] == classic_prefix()[i]);
        }
    }
    assert(s =~= shaped);
}

/// A text of the classic dialect holds ASCII characters only.
pub proof fn lemma_classic_form_is_ascii(s: Seq<char>)
    requires
        is_classic_form(s),
    ensures
        vstd::utf8::is_ascii_chars(s),
{
    let tail = s.subrange(10, s.len() as int);
    assert forall|i: int| 0 <= i < s.len() implies '\0' <= #[trigger] s[i] <= '\u{7f}' by {
        if i < 6 {
            assert(s.subrange(0, 6)[i] == classic_prefix()[i]);
        } else if i >= 10 {
            assert(is_digit(tail[i - 10]));
        }
    }
}

/// Whether a text opens with the prefix of the classic dialect.
pub(crate) fn has_classic_prefix(text: &str) -> (b: bool)
    requires
        text.is_ascii(),
    ensures
        b == classic_prefix().is_prefix_of(text@),
{
    let len = ascii_len(text);
    if len < 6 {
        return false;
    }
    let b = ascii_at(text, 0) == 'S' && ascii_at(text, 1) == 'T' && ascii_at(text, 2) == 'E'
        && ascii_at(text, 3) == 'A' && ascii_at(text, 4) == 'M' && ascii_at(text, 5) == '_';
    proof {
        let head = text@.subrange(0, 6);
        if b {
            assert(head =~= classic_prefix());
        } else {
            assert(head[0] == text@[0] && head[1] == text@[1] && head[2] == text@[2] && head[3]
                == text@[3] && head[4] == text@[4] && head[5] == text@[5]);
        }
    }
    b
}

/// Reads a text of the classic dialect. A text that breaks the grammar is a
/// `ParseError`, a universe digit above 5 an `InvalidUniverse`, and an
/// account number above 32 bits an `Overflow`.
pub fn parse_classic(text: &str) -> (r: Result<SteamID, SteamIdError>)
    ensures
        match classic_reading(text@) {
            Ok(raw) => r matches Ok(id) && id@ == raw,
            Err(e) => r == Err::<SteamID, SteamIdError>(e),
        },
{
    if !text.is_ascii() {
        proof {
            if is_classic_form(text@) {
                lemma_classic_form_is_ascii(text@);
            }
        }
        return Err(SteamIdError::ParseError);
    }
    let len = ascii_len(text);
    if len < 11 || !has_classic_prefix(text) {
        return Err(SteamIdError::ParseError);
    }
    let u = ascii_at(text, 6);
    let bit = ascii_at(text, 8);
    if !(u >= '0' && u <= '9') || ascii_at(text, 7) != ':' || !(bit == '0' || bit == '1')
        || ascii_at(text, 9) != ':' {
        return Err(SteamIdError::ParseError);
    }
    let (end, half) = scan_number(text, 10, 0x7FFF_FFFF);
    proof {
        let tail = text@.subrange(10, len as int);
        lemma_digits_end_bounds(text@, 10);
        if end == len {
            assert(all_digits(tail)) by {
                assert forall|i: int| 0 <= i < tail.len() implies is_digit(#[trigger] tail[i]) by {
                    assert(is_digit(text@[i + 10]));
                }
            }
        } else {
            assert(!is_digit(tail[end - 10]));
        }
    }
    if end != len {
        return Err(SteamIdError::ParseError);
    }
    let universe_code: u8 = u as u8 - 48;
    let low: u64 = (bit as u8 - 48) as u64;
    let universe = match Universe::from_code(if universe_code == 0 {
        1
    } else {
        universe_code
    }) {
        Some(universe) => universe,
        None => {
            return Err(SteamIdError::InvalidUniverse);
        },
    };
    let half: u64 = match half {
        Some(half) => half,
        None => {
            return Err(SteamIdError::Overflow);
        },
    };
    SteamID::from_parts(half * 2 + low, 1, AccountType::Individual, universe)
}

/// Writes an identifier in the classic dialect: always three fields, the
/// universe by its code.
pub fn format_classic(id: &SteamID) -> (r: String)
    ensures
        r@ == classic_text(id@),
{
    let account_number: u64 = id.account_number() as u64;
    let mut out = String::from_str("STEAM_");
    proof {
        reveal_strlit("STEAM_");
        reveal_strlit(":");
        assert(out@ =~= classic_prefix());
    }
    out.append(digit_str(id.universe().code()));
    out.append(":");
    out.append(digit_str((account_number % 2) as u8));
    out.append(":");
    push_decimal(&mut out, account_number / 2);
    assert(out@ =~= classic_text(id@));
    out
}

/// Reading what `format_classic` writes gives an individual account with
/// instance 1 and with the account number of the identifier that was
/// written. Its universe is that of the identifier too, but for the universe
/// `Invalid`, whose digit `0` is read as `Public`.
pub proof fn lemma_classic_round_trip(id: SteamID)
    requires
        valid_raw(id@),
    ensures
        classic_reading(classic_text(id@)) is Ok,
        ({
            let back = fields_of(classic_reading(classic_text(id@)).unwrap());
            &&& back.account_number == id.fields().account_number
            &&& id.spec_universe() != Universe::Invalid ==> back.universe == id.fields().universe
            &&& id.spec_universe() == Universe::Invalid ==> back.universe
                == Universe::Public.spec_code()
            &&& back.account_type == AccountType::Individual.spec_code()
            &&& back.instance == 1
        }),
{
    let f = id.fields();
    let half = (f.account_number / 2) as nat;
    let bit = (f.account_number % 2) as nat;
    lemma_decimal_text_digits(half);
    lemma_decimal_round_trip(half);
    lemma_classic_shape_is_form(
        digit_char(f.universe as nat),
        digit_char(bit),
        decimal_text(half),
    );
    let universe = Universe::spec_from_code(classic_universe(f.universe as nat) as int).unwrap();
    lemma_unpack_pack(f.account_number as u64, 1, AccountType::Individual, universe);
}

} // verus!
