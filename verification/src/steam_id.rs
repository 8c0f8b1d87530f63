//! The identifier itself: a 64-bit value whose account type and universe
//! codes name members of their enumerations.

use vstd::prelude::*;
use crate::codec::{fields_of, fits, lemma_pack_unpack, pack, packed, unpack, Fields};
use crate::decimal::{decimal_text, format_decimal};
use crate::error::SteamIdError;
use crate::kinds::{AccountType, Universe};

verus! {

/// Whether the account type and universe codes held in a 64-bit value both
/// name a member of their enumeration.
pub open spec fn valid_raw(raw: u64) -> bool {
    fields_of(raw).account_type <= 10 && fields_of(raw).universe <= 5
}

/// What a 64-bit value is accepted as: itself when both of its codes are
/// known, else the error for the first code that is not, the account type
/// before the universe.
pub open spec fn checked_raw(raw: u64) -> Result<u64, SteamIdError> {
    if fields_of(raw).account_type > 10 {
        Err(SteamIdError::InvalidAccountType)
    } else if fields_of(raw).universe > 5 {
        Err(SteamIdError::InvalidUniverse)
    } else {
        Ok(raw)
    }
}

/// The account type that a 64-bit value names, where its code is known.
pub open spec fn type_of(raw: u64) -> AccountType {
    AccountType::spec_from_code(fields_of(raw).account_type as int).unwrap()
}

/// The universe that a 64-bit value names, where its code is known.
pub open spec fn universe_of(raw: u64) -> Universe {
    Universe::spec_from_code(fields_of(raw).universe as int).unwrap()
}

/// A Steam account handle. Its view is the packed 64-bit value, and two
/// handles are equal exactly when their packed values are.
#[derive(Clone, Copy, Debug, PartialEq, Eq, Structural, Ord, Hash)]
pub struct SteamID {
    raw: u64,
}

impl View for SteamID {
    type V = u64;

    closed spec fn view(&self) -> u64 {
        self.raw
    }
}

impl SteamID {
    #[verifier::type_invariant]
    spec fn codes_known(self) -> bool {
        valid_raw(self.raw)
    }

    /// The four bit fields of the packed value.
    pub open spec fn fields(self) -> Fields {
        fields_of(self@)
    }

    /// The account type named by the packed value.
    pub open spec fn spec_account_type(self) -> AccountType {
        type_of(self@)
    }

    /// The universe named by the packed value.
    pub open spec fn spec_universe(self) -> Universe {
        universe_of(self@)
    }

    /// Two identifiers are equal exactly when their packed values are.
    pub proof fn lemma_view_decides(self, other: SteamID)
        ensures
            self == other <==> self@ == other@,
    {
    }

    /// Accepts a 64-bit value whose codes are known, and rejects any other
    /// with the error for its first unknown code.
    pub fn from_raw(raw: u64) -> (r: Result<SteamID, SteamIdError>)
        ensures
            match checked_raw(raw) {
                Ok(v) => r matches Ok(id) && id@ == v,
                Err(e) => r == Err::<SteamID, SteamIdError>(e),
            },
            r is Ok <==> valid_raw(raw),
    {
        let f = unpack(raw);
        if f.account_type > 10 {
            Err(SteamIdError::InvalidAccountType)
        } else if f.universe > 5 {
            Err(SteamIdError::InvalidUniverse)
        } else {
            Ok(SteamID { raw })
        }
    }

    /// Builds an identifier from its four fields, or reports `Overflow` when
    /// the account number needs more than 32 bits or the instance more than
    /// 20.
    pub fn from_parts(
        account_number: u64,
        instance: u64,
        account_type: AccountType,
        universe: Universe,
    ) -> (r: Result<SteamID, SteamIdError>)
        ensures
            fits(account_number, instance) ==> (r matches Ok(id) && id@ == packed(
                account_number as int,
                instance as int,
                account_type.spec_code() as int,
                universe.spec_code() as int,
            ) && id.fields() == (Fields {
                account_number: account_number as u32,
                instance: instance as u32,
                account_type: account_type.spec_code(),
                universe: universe.spec_code(),
            })),
            !fits(account_number, instance) ==> r == Err::<SteamID, SteamIdError>(
                SteamIdError::Overflow,
            ),
    {
        match pack(account_number, instance, account_type, universe) {
            Ok(raw) => Ok(SteamID { raw }),
            Err(e) => Err(e),
        }
    }

    /// The packed 64-bit value.
    pub fn to_u64(&self) -> (raw: u64)
        ensures
            raw == self@,
            valid_raw(raw),
    {
        proof {
            use_type_invariant(self);
        }
        self.raw
    }

    /// The account number: the low 32 bits.
    pub fn account_number(&self) -> (a: u32)
        ensures
            a == self.fields().account_number,
    {
        unpack(self.raw).account_number
    }

    /// The instance: the 20 bits above the account number.
    pub fn instance(&self) -> (i: u32)
        ensures
            i == self.fields().instance,
            i <= 0xF_FFFF,
    {
        unpack(self.raw).instance
    }

    /// The account type.
    pub fn account_type(&self) -> (t: AccountType)
        ensures
            t == self.spec_account_type(),
            t.spec_code() == self.fields().account_type,
    {
        proof {
            use_type_invariant(self);
        }
        match AccountType::from_code(unpack(self.raw).account_type) {
            Some(t) => t,
            None => AccountType::Invalid,
        }
    }

    /// The universe.
    pub fn universe(&self) -> (u: Universe)
        ensures
            u == self.spec_universe(),
            u.spec_code() == self.fields().universe,
    {
        proof {
            use_type_invariant(self);
        }
        match Universe::from_code(unpack(self.raw).universe) {
            Some(u) => u,
            None => Universe::Invalid,
        }
    }

    /// The canonical written form: the packed value in decimal.
    pub fn to_string(&self) -> (s: String)
        ensures
            s@ == decimal_text(self@ as nat),
    {
        format_decimal(self.raw)
    }
}

/// Packing the fields of an identifier gives its packed value back, so the
/// four accessors together decide the identifier.
pub proof fn lemma_fields_give_value(id: SteamID)
    requires
        valid_raw(id@),
    ensures
        id@ == packed(
            id.fields().account_number as int,
            id.fields().instance as int,
            id.spec_account_type().spec_code() as int,
            id.spec_universe().spec_code() as int,
        ),
{
    lemma_pack_unpack(id@);
}

} // verus!
