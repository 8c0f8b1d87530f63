//! Reading an identifier from text, whatever the dialect.

use vstd::prelude::*;
use vstd::string::*;
use crate::classic::{
    classic_prefix, classic_reading, classic_text, has_classic_prefix, is_classic_form,
    lemma_classic_form_is_ascii, parse_classic,
};
use crate::community::{
    community_reading, community_text, is_community_form, lemma_community_form_is_ascii,
    lemma_community_round_trip, parse_community,
};
use crate::decimal::{
    all_digits, ascii_at, ascii_len, decimal_reading, decimal_text, is_digit,
    lemma_decimal_reading_of_text, lemma_decimal_text_digits, lemma_digits_are_ascii,
    parse_decimal,
};
use crate::error::SteamIdError;
use crate::steam_id::{checked_raw, valid_raw, SteamID};

verus! {

/// The packed value that a text stands for in the raw numeric form, or why
/// it stands for none: the text has to be a decimal number of at most 64
/// bits, and the codes in that number have to be known.
pub open spec fn raw_reading(s: Seq<char>) -> Result<u64, SteamIdError> {
    match decimal_reading(s) {
        Ok(raw) => checked_raw(raw),
        Err(e) => Err(e),
    }
}

/// The packed value that a text stands for. A text that opens with `STEAM_`
/// is read in the classic dialect, one that opens with `[` in the community
/// dialect, and any other in the raw numeric form.
pub open spec fn text_reading(s: Seq<char>) -> Result<u64, SteamIdError> {
    if classic_prefix().is_prefix_of(s) {
        classic_reading(s)
    } else if s.len() > 0 && s[0] == '[' {
        community_reading(s)
    } else {
        raw_reading(s)
    }
}

/// Reads the raw numeric form: the packed value in decimal.
pub fn parse_raw(text: &str) -> (r: Result<SteamID, SteamIdError>)
    ensures
        match raw_reading(text@) {
            Ok(raw) => r matches Ok(id) && id@ == raw,
            Err(e) => r == Err::<SteamID, SteamIdError>(e),
        },
{
    match parse_decimal(text) {
        Ok(raw) => SteamID::from_raw(raw),
        Err(e) => Err(e),
    }
}

/// A text with a character outside ASCII stands for nothing in any dialect.
pub proof fn lemma_reading_needs_ascii(s: Seq<char>)
    requires
        !vstd::utf8::is_ascii_chars(s),
    ensures
        text_reading(s) == Err::<u64, SteamIdError>(SteamIdError::ParseError),
{
    if is_classic_form(s) {
        lemma_classic_form_is_ascii(s);
    }
    if is_community_form(s) {
        lemma_community_form_is_ascii(s);
    }
    if all_digits(s) {
        lemma_digits_are_ascii(s);
    }
}

impl SteamID {
    /// Reads an identifier from text in any of the three forms, told apart by
    /// how the text opens.
    pub fn parse(text: &str) -> (r: Result<SteamID, SteamIdError>)
        ensures
            match text_reading(text@) {
                Ok(raw) => r matches Ok(id) && id@ == raw,
                Err(e) => r == Err::<SteamID, SteamIdError>(e),
            },
    {
        if !text.is_ascii() {
            proof {
                lemma_reading_needs_ascii(text@);
            }
            return Err(SteamIdError::ParseError);
        }
        if has_classic_prefix(text) {
            parse_classic(text)
        } else if ascii_len(text) > 0 && ascii_at(text, 0) == '[' {
            parse_community(text)
        } else {
            parse_raw(text)
        }
    }
}

/// The canonical written form of an identifier is read back as that
/// identifier, by the raw numeric form and by the reader of any dialect.
pub proof fn lemma_raw_round_trip(id: SteamID)
    requires
        valid_raw(id@),
    ensures
        raw_reading(decimal_text(id@ as nat)) == Ok::<u64, SteamIdError>(id@),
        text_reading(decimal_text(id@ as nat)) == Ok::<u64, SteamIdError>(id@),
{
    let s = decimal_text(id@ as nat);
    lemma_decimal_reading_of_text(id@);
    lemma_decimal_text_digits(id@ as nat);
    assert(is_digit(s[0]));
    if classic_prefix().is_prefix_of(s) {
        assert(s.subrange(0, 6)[0] == classic_prefix()[0]);
    }
}

/// The reader of any dialect reads a text in the classic dialect as the
/// classic reader does.
pub proof fn lemma_text_reading_of_classic(raw: u64)
    ensures
        text_reading(classic_text(raw)) == classic_reading(classic_text(raw)),
{
    assert(classic_text(raw).subrange(0, 6) =~= classic_prefix());
}

/// The reader of any dialect reads what `format_community` writes as the
/// identifier that was written.
pub proof fn lemma_text_reading_of_community(id: SteamID)
    requires
        valid_raw(id@),
    ensures
        text_reading(community_text(id@)) == Ok::<u64, SteamIdError>(id@),
{
    let s = community_text(id@);
    lemma_community_round_trip(id);
    assert(s[0] == '[');
    if classic_prefix().is_prefix_of(s) {
        assert(s.subrange(0, 6)[0] == classic_prefix()[0]);
    }
}

} // verus!
