//! Why an identifier could not be built.

use vstd::prelude::*;

verus! {

/// Reasons for which building or reading an identifier fails.
#[derive(Clone, Copy, Debug, PartialEq, Eq, Structural, Hash)]
pub enum SteamIdError {
    /// The text follows none of the accepted grammars.
    ParseError,
    /// A letter or a numeric code names no account type.
    InvalidAccountType,
    /// A numeric code names no universe.
    InvalidUniverse,
    /// A number is too large for the bit field that has to hold it.
    Overflow,
}

} // verus!
