//! The community dialect: between square brackets, the letter of the account
//! type, the universe and the account number in decimal, and the instance
//! where it is not the usual one for the account type, with colons between.

use vstd::prelude::*;
use vstd::string::*;
use crate::codec::{fields_of, lemma_pack_unpack, packed, MAX_ACCOUNT_NUMBER, MAX_INSTANCE};
use crate::decimal::{
    ascii_at, ascii_len, decimal_text, decimal_value, digits_end, is_digit, is_number,
    lemma_decimal_round_trip, lemma_decimal_text_digits, lemma_digits_end,
    lemma_digits_end_bounds, push_decimal, scan_number,
};
use crate::error::SteamIdError;
use crate::kinds::{AccountType, Universe};
use crate::steam_id::{type_of, valid_raw, SteamID};

verus! {

/// Whether a character is one of the 52 letters of ASCII.
pub open spec fn is_letter(c: char) -> bool {
    ('A' <= c && c <= 'Z') || ('a' <= c && c <= 'z')
}

/// Where the universe field ends. It starts at index 3, behind the bracket,
/// the letter and the first colon.
pub open spec fn universe_end(s: Seq<char>) -> int {
    digits_end(s, 3)
}

/// Where the account number field ends. It starts behind the colon that
/// closes the universe field.
pub open spec fn account_end(s: Seq<char>) -> int {
    digits_end(s, universe_end(s) + 1)
}

/// Where the instance field ends, in a text that has one. It starts behind
/// the colon that closes the account number field.
pub open spec fn instance_end(s: Seq<char>) -> int {
    digits_end(s, account_end(s) + 1)
}

/// Whether a text follows the grammar of the community dialect: `[`, a
/// letter, `:`, digits, `:`, digits, then either `]` or `:`, digits and `]`,
/// and nothing after it. Each run of digits holds at least one.
pub open spec fn is_community_form(s: Seq<char>) -> bool {
    &&& s.len() >= 7
    &&& s[0] == '['
    &&& is_letter(s[1])
    &&& s[2] == ':'
    &&& 3 < universe_end(s) < s.len()
    &&& s[universe_end(s)] == ':'
    &&& universe_end(s) + 1 < account_end(s) < s.len()
    &&& if s[account_end(s)] == ':' {
        &&& account_end(s) + 1 < instance_end(s)
        &&& instance_end(s) + 1 == s.len()
        &&& s[instance_end(s)] == ']'
    } else {
        &&& account_end(s) + 1 == s.len()
        &&& s[account_end(s)] == ']'
    }
}

/// The digits of the universe field.
pub open spec fn universe_digits(s: Seq<char>) -> Seq<char> {
    s.subrange(3, universe_end(s))
}

/// The digits of the account number field.
pub open spec fn account_digits(s: Seq<char>) -> Seq<char> {
    s.subrange(universe_end(s) + 1, account_end(s))
}

/// The digits of the instance field, in a text that has one.
pub open spec fn instance_digits(s: Seq<char>) -> Seq<char> {
    s.subrange(account_end(s) + 1, instance_end(s))
}

/// The instance field of a text of the community dialect, if it has one.
pub open spec fn instance_field(s: Seq<char>) -> Option<Seq<char>> {
    if s[account_end(s)] == ':' {
        Some(instance_digits(s))
    } else {
        None
    }
}

/// The instance that a text of the community dialect gives to an account of
/// a given type: the one written, or the usual one for the type.
pub open spec fn community_instance(s: Seq<char>, account_type: AccountType) -> nat {
    match instance_field(s) {
        Some(digits) => decimal_value(digits),
        None => account_type.spec_default_instance() as nat,
    }
}

/// The packed value that a text of the community dialect stands for, or why
/// it stands for none. A text that breaks the grammar is a `ParseError`;
/// then come, in this order, a letter that names no account type, a universe
/// above 5, and an account number or an instance too large for its bits.
pub open spec fn community_reading(s: Seq<char>) -> Result<u64, SteamIdError> {
    if !is_community_form(s) {
        Err(SteamIdError::ParseError)
    } else {
        match AccountType::spec_from_letter(s[1]) {
            None => Err(SteamIdError::InvalidAccountType),
            Some(account_type) => {
                if decimal_value(universe_digits(s)) > 5 {
                    Err(SteamIdError::InvalidUniverse)
                } else if decimal_value(account_digits(s)) > MAX_ACCOUNT_NUMBER
                    || community_instance(s, account_type) > MAX_INSTANCE {
                    Err(SteamIdError::Overflow)
                } else {
                    Ok(
                        packed(
                            decimal_value(account_digits(s)) as int,
                            community_instance(s, account_type) as int,
                            account_type.spec_code() as int,
                            decimal_value(universe_digits(s)) as int,
                        ) as u64,
                    )
                }
            },
        }
    }
}

/// The text made of a letter and of the digits of two or three fields, with
/// the brackets and colons of the community dialect around them.
pub open spec fn community_shape(
    letter: char,
    universe: Seq<char>,
    account: Seq<char>,
    instance: Option<Seq<char>>,
) -> Seq<char> {
    seq!['[', letter, ':'] + universe + seq![':'] + account + match instance {
        Some(digits) => seq![':'] + digits + seq![']'],
        None => seq![']'],
    }
}

/// The instance as the community dialect writes it: not at all where it is
/// the usual one for the account type, else in decimal.
pub open spec fn written_instance(raw: u64) -> Option<Seq<char>> {
    if fields_of(raw).instance == type_of(raw).spec_default_instance() {
        None
    } else {
        Some(decimal_text(fields_of(raw).instance as nat))
    }
}

/// How a packed value is written in the community dialect.
pub open spec fn community_text(raw: u64) -> Seq<char> {
    community_shape(
        type_of(raw).spec_letter(),
        decimal_text(fields_of(raw).universe as nat),
        decimal_text(fields_of(raw).account_number as nat),
        written_instance(raw),
    )
}

/// Every text shaped as the community dialect asks follows its grammar, and
/// its letter and fields are the ones it was made of.
pub proof fn lemma_community_shape_is_form(
    letter: char,
    universe: Seq<char>,
    account: Seq<char>,
    instance: Option<Seq<char>>,
)
    requires
        is_letter(letter),
        is_number(universe),
        is_number(account),
        instance matches Some(digits) ==> is_number(digits),
    ensures
        is_community_form(community_shape(letter, universe, account, instance)),
        community_shape(letter, universe, account, instance)[1] == letter,
        universe_digits(community_shape(letter, universe, account, instance)) == universe,
        account_digits(community_shape(letter, universe, account, instance)) == account,
        instance_field(community_shape(letter, universe, account, instance)) == instance,
{
    let s = community_shape(letter, universe, account, instance);
    let u_end = 3 + universe.len() as int;
    let a_end = u_end + 1 + account.len() as int;
    assert forall|j: int| 3 <= j < u_end implies is_digit(#[trigger] s[j]) by {
        assert(s[j] == universe[j - 3]);
    }
    assert(s[u_end] == ':');
    lemma_digits_end(s, 3, u_end);
    assert forall|j: int| u_end + 1 <= j < a_end implies is_digit(#[trigger] s[j]) by {
        assert(s[j] == account[j - u_end - 1]);
    }
    assert(universe_digits(s) =~= universe);
    match instance {
        Some(digits) => {
            let i_end = a_end + 1 + digits.len() as int;
            assert(s[a_end] == ':');
            lemma_digits_end(s, u_end + 1, a_end);
            assert forall|j: int| a_end + 1 <= j < i_end implies is_digit(#[trigger] s[j]) by {
                assert(s[j] == digits[j - a_end - 1]);
            }
            assert(s[i_end] == ']');
            lemma_digits_end(s, a_end + 1, i_end);
            assert(instance_digits(s) =~= digits);
        },
        None => {
            assert(s[a_end] == ']');
            lemma_digits_end(s, u_end + 1, a_end);
        },
    }
    assert(account_digits(s) =~= account);
}

/// Every text that follows the grammar of the community dialect is shaped
/// as the dialect asks: it is made of its letter and of its fields, and
/// each field is a number.
pub proof fn lemma_community_form_is_shape(s: Seq<char>)
    requires
        is_community_form(s),
    ensures
        s == community_shape(s[1], universe_digits(s), account_digits(s), instance_field(s)),
        is_letter(s[1]),
        is_number(universe_digits(s)),
        is_number(account_digits(s)),
        instance_field(s) matches Some(digits) ==> is_number(digits),
{
    lemma_digits_end_bounds(s, 3);
    lemma_digits_end_bounds(s, universe_end(s) + 1);
    if s[account_end(s)] == ':' {
        lemma_digits_end_bounds(s, account_end(s) + 1);
    }
    assert(s =~= community_shape(s[1], universe_digits(s), account_digits(s), instance_field(s)));
}

/// A text of the community dialect holds ASCII characters only.
pub proof fn lemma_community_form_is_ascii(s: Seq<char>)
    requires
        is_community_form(s),
    ensures
        vstd::utf8::is_ascii_chars(s),
{
    lemma_digits_end_bounds(s, 3);
    lemma_digits_end_bounds(s, universe_end(s) + 1);
    if s[account_end(s)] == ':' {
        lemma_digits_end_bounds(s, account_end(s) + 1);
    }
    assert forall|i: int| 0 <= i < s.len() implies '\0' <= #[trigger] s[i] <= '\u{7f}' by {
        if 3 <= i < universe_end(s) {
            assert(is_digit(s[i]));
        } else if universe_end(s) < i < account_end(s) {
            assert(is_digit(s[i]));
        } else if account_end(s) < i && i + 1 < s.len() {
            assert(is_digit(s[i]));
        }
    }
}

/// The one-character text of the letter of an account type.
pub(crate) fn letter_str(account_type: AccountType) -> (r: &'static str)
    ensures
        r@ == seq![account_type.spec_letter()],
{
    proof {
        reveal_strlit("I");
        reveal_strlit("U");
        reveal_strlit("M");
        reveal_strlit("G");
        reveal_strlit("A");
        reveal_strlit("P");
        reveal_strlit("C");
        reveal_strlit("g");
        reveal_strlit("c");
        reveal_strlit("S");
        reveal_strlit("a");
    }
    let r = match account_type {
        AccountType::Invalid => "I",
        AccountType::Individual => "U",
        AccountType::Multiseat => "M",
        AccountType::GameServer => "G",
        AccountType::AnonGameServer => "A",
        AccountType::Pending => "P",
        AccountType::ContentServer => "C",
        AccountType::Clan => "g",
        AccountType::Chat => "c",
        AccountType::P2PSuperSeeder => "S",
        AccountType::AnonUser => "a",
    };
    assert(r@ =~= seq![account_type.spec_letter()]);
    r
}

/// Reads a text of the community dialect. The errors and their order are
/// those of `community_reading`.
pub fn parse_community(text: &str) -> (r: Result<SteamID, SteamIdError>)
    ensures
        match community_reading(text@) {
            Ok(raw) => r matches Ok(id) && id@ == raw,
            Err(e) => r == Err::<SteamID, SteamIdError>(e),
        },
{
    if !text.is_ascii() {
        proof {
            if is_community_form(text@) {
                lemma_community_form_is_ascii(text@);
            }
        }
        return Err(SteamIdError::ParseError);
    }
    let len = ascii_len(text);
    if len < 7 {
        return Err(SteamIdError::ParseError);
    }
    let letter = ascii_at(text, 1);
    if ascii_at(text, 0) != '[' || !((letter >= 'A' && letter <= 'Z') || (letter >= 'a' && letter
        <= 'z')) || ascii_at(text, 2) != ':' {
        return Err(SteamIdError::ParseError);
    }
    let (u_end, universe_code) = scan_number(text, 3, 5);
    if u_end == 3 || u_end >= len {
        return Err(SteamIdError::ParseError);
    }
    if ascii_at(text, u_end) != ':' {
        return Err(SteamIdError::ParseError);
    }
    let (a_end, account_number) = scan_number(text, u_end + 1, MAX_ACCOUNT_NUMBER);
    if a_end == u_end + 1 || a_end >= len {
        return Err(SteamIdError::ParseError);
    }
    let written: Option<Option<u64>> = if ascii_at(text, a_end) == ':' {
        let (i_end, instance) = scan_number(text, a_end + 1, MAX_INSTANCE);
        if i_end == a_end + 1 || i_end >= len {
            return Err(SteamIdError::ParseError);
        }
        if i_end + 1 != len || ascii_at(text, i_end) != ']' {
            return Err(SteamIdError::ParseError);
        }
        Some(instance)
    } else {
        if a_end + 1 != len || ascii_at(text, a_end) != ']' {
            return Err(SteamIdError::ParseError);
        }
        None
    };
    assert(is_community_form(text@));
    let account_type = match AccountType::from_letter(letter) {
        Some(account_type) => account_type,
        None => {
            return Err(SteamIdError::InvalidAccountType);
        },
    };
    let universe = match universe_code {
        Some(code) => match Universe::from_code(code as u8) {
            Some(universe) => universe,
            None => {
                return Err(SteamIdError::InvalidUniverse);
            },
        },
        None => {
            return Err(SteamIdError::InvalidUniverse);
        },
    };
    let instance: Option<u64> = match written {
        Some(instance) => instance,
        None => Some(account_type.default_instance() as u64),
    };
    match (account_number, instance) {
        (Some(account_number), Some(instance)) => SteamID::from_parts(
            account_number,
            instance,
            account_type,
            universe,
        ),
        _ => Err(SteamIdError::Overflow),
    }
}

/// Writes an identifier in the community dialect. The instance is written
/// only where it is not the usual one for the account type.
pub fn format_community(id: &SteamID) -> (r: String)
    ensures
        r@ == community_text(id@),
{
    let account_type = id.account_type();
    let instance = id.instance();
    let mut out = String::from_str("[");
    proof {
        reveal_strlit("[");
        reveal_strlit(":");
        reveal_strlit("]");
    }
    out.append(letter_str(account_type));
    out.append(":");
    push_decimal(&mut out, id.universe().code() as u64);
    out.append(":");
    push_decimal(&mut out, id.account_number() as u64);
    if instance != account_type.default_instance() {
        out.append(":");
        push_decimal(&mut out, instance as u64);
    }
    out.append("]");
    assert(out@ =~= community_text(id@));
    out
}

/// Reading what `format_community` writes gives back the identifier that
/// was written: its account number, instance, account type and universe.
pub proof fn lemma_community_round_trip(id: SteamID)
    requires
        valid_raw(id@),
    ensures
        community_reading(community_text(id@)) == Ok::<u64, SteamIdError>(id@),
{
    let f = id.fields();
    lemma_decimal_text_digits(f.universe as nat);
    lemma_decimal_text_digits(f.account_number as nat);
    lemma_decimal_text_digits(f.instance as nat);
    lemma_decimal_round_trip(f.universe as nat);
    lemma_decimal_round_trip(f.account_number as nat);
    lemma_decimal_round_trip(f.instance as nat);
    lemma_pack_unpack(id@);
    lemma_community_shape_is_form(
        type_of(id@).spec_letter(),
        decimal_text(f.universe as nat),
        decimal_text(f.account_number as nat),
        written_instance(id@),
    );
}

} // verus!
