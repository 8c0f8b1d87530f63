//! The bit layout of an identifier.
//!
//! From the low bit up: 32 bits of account number, 20 bits of instance,
//! 4 bits of account type, 8 bits of universe.

use vstd::prelude::*;
use crate::error::SteamIdError;
use crate::kinds::{AccountType, Universe};

verus! {

/// Largest account number that fits in its 32 bits.
pub const MAX_ACCOUNT_NUMBER: u64 = 0xFFFF_FFFF;

/// Largest instance that fits in its 20 bits.
pub const MAX_INSTANCE: u64 = 0xF_FFFF;

/// The four bit fields of a 64-bit value, as plain numbers. The codes of
/// account type and universe are whatever the bits hold: they may name no
/// member of the enumerations.
#[derive(Clone, Copy, Debug, PartialEq, Eq, Structural, Hash)]
pub struct Fields {
    pub account_number: u32,
    pub instance: u32,
    pub account_type: u8,
    pub universe: u8,
}

/// The number whose bit fields are the four given ones.
pub open spec fn packed(account_number: int, instance: int, account_type: int, universe: int) -> int {
    account_number + instance * 0x1_0000_0000 + account_type * 0x10_0000_0000_0000 + universe
        * 0x100_0000_0000_0000
}

/// The bit fields of a 64-bit value.
pub open spec fn fields_of(raw: u64) -> Fields {
    Fields {
        account_number: (raw % 0x1_0000_0000) as u32,
        instance: ((raw / 0x1_0000_0000) % 0x10_0000) as u32,
        account_type: ((raw / 0x10_0000_0000_0000) % 0x10) as u8,
        universe: (raw / 0x100_0000_0000_0000) as u8,
    }
}

/// Whether an account number and an instance fit in their bit fields.
pub open spec fn fits(account_number: u64, instance: u64) -> bool {
    account_number <= MAX_ACCOUNT_NUMBER && instance <= MAX_INSTANCE
}

/// The layout in both of its readings: joining four fields with shifts gives
/// their weighted sum, and dividing that sum gives the fields back.
proof fn lemma_layout(a: u64, i: u64, t: u64, u: u64)
    by (bit_vector)
    requires
        a <= 0xFFFF_FFFF,
        i <= 0xF_FFFF,
        t <= 0xF,
        u <= 0xFF,
    ensures
        (a | (i << 32) | (t << 52) | (u << 56)) == a + i * 0x1_0000_0000 + t * 0x10_0000_0000_0000
            + u * 0x100_0000_0000_0000,
        (a | (i << 32) | (t << 52) | (u << 56)) % 0x1_0000_0000 == a,
        ((a | (i << 32) | (t << 52) | (u << 56)) / 0x1_0000_0000) % 0x10_0000 == i,
        ((a | (i << 32) | (t << 52) | (u << 56)) / 0x10_0000_0000_0000) % 0x10 == t,
        (a | (i << 32) | (t << 52) | (u << 56)) / 0x100_0000_0000_0000 == u,
{
}

/// Masks and shifts read the same fields as remainders and quotients do.
proof fn lemma_extract(raw: u64)
    by (bit_vector)
    ensures
        raw & 0xFFFF_FFFF == raw % 0x1_0000_0000,
        (raw >> 32) & 0xF_FFFF == (raw / 0x1_0000_0000) % 0x10_0000,
        (raw >> 52) & 0xF == (raw / 0x10_0000_0000_0000) % 0x10,
        raw >> 56 == raw / 0x100_0000_0000_0000,
        raw & 0xFFFF_FFFF <= 0xFFFF_FFFF,
        (raw >> 32) & 0xF_FFFF <= 0xF_FFFF,
        (raw >> 52) & 0xF <= 0xF,
        raw >> 56 <= 0xFF,
        raw == (raw & 0xFFFF_FFFF) | (((raw >> 32) & 0xF_FFFF) << 32) | (((raw >> 52) & 0xF) << 52)
            | ((raw >> 56) << 56),
{
}

/// Packs four fields into one 64-bit value, or reports `Overflow` when the
/// account number needs more than 32 bits or the instance more than 20.
pub fn pack(account_number: u64, instance: u64, account_type: AccountType, universe: Universe) -> (r:
    Result<u64, SteamIdError>)
    ensures
        fits(account_number, instance) ==> r == Ok::<u64, SteamIdError>(
            packed(
                account_number as int,
                instance as int,
                account_type.spec_code() as int,
                universe.spec_code() as int,
            ) as u64,
        ),
        !fits(account_number, instance) ==> r == Err::<u64, SteamIdError>(SteamIdError::Overflow),
        r matches Ok(raw) ==> fields_of(raw) == (Fields {
            account_number: account_number as u32,
            instance: instance as u32,
            account_type: account_type.spec_code(),
            universe: universe.spec_code(),
        }),
{
    if account_number > MAX_ACCOUNT_NUMBER || instance > MAX_INSTANCE {
        return Err(SteamIdError::Overflow);
    }
    let t: u64 = account_type.code() as u64;
    let u: u64 = universe.code() as u64;
    let raw: u64 = account_number | (instance << 32) | (t << 52) | (u << 56);
    proof {
        lemma_layout(account_number, instance, t, u);
    }
    Ok(raw)
}

/// Splits a 64-bit value into its four bit fields. Every value can be split;
/// whether the two codes name anything is for the caller to decide.
pub fn unpack(raw: u64) -> (f: Fields)
    ensures
        f == fields_of(raw),
        f.instance <= MAX_INSTANCE,
        f.account_type <= 15,
        packed(f.account_number as int, f.instance as int, f.account_type as int, f.universe as int)
            == raw,
{
    let a: u64 = raw & 0xFFFF_FFFF;
    let i: u64 = (raw >> 32) & 0xF_FFFF;
    let t: u64 = (raw >> 52) & 0xF;
    let u: u64 = raw >> 56;
    proof {
        lemma_extract(raw);
        lemma_layout(a, i, t, u);
    }
    Fields { account_number: a as u32, instance: i as u32, account_type: t as u8, universe: u as u8 }
}

/// Unpacking a packed value gives back the four fields that went in, for
/// every account number of at most 32 bits and instance of at most 20.
pub proof fn lemma_unpack_pack(
    account_number: u64,
    instance: u64,
    account_type: AccountType,
    universe: Universe,
)
    requires
        fits(account_number, instance),
    ensures
        0 <= packed(
            account_number as int,
            instance as int,
            account_type.spec_code() as int,
            universe.spec_code() as int,
        ) <= u64::MAX,
        fields_of(
            packed(
                account_number as int,
                instance as int,
                account_type.spec_code() as int,
                universe.spec_code() as int,
            ) as u64,
        ) == (Fields {
            account_number: account_number as u32,
            instance: instance as u32,
            account_type: account_type.spec_code(),
            universe: universe.spec_code(),
        }),
{
    lemma_layout(
        account_number,
        instance,
        account_type.spec_code() as u64,
        universe.spec_code() as u64,
    );
}

/// Packing the fields of a 64-bit value gives that value back, whatever its
/// bits are.
pub proof fn lemma_pack_unpack(raw: u64)
    ensures
        packed(
            fields_of(raw).account_number as int,
            fields_of(raw).instance as int,
            fields_of(raw).account_type as int,
            fields_of(raw).universe as int,
        ) == raw,
{
    let f = fields_of(raw);
    lemma_extract(raw);
    lemma_layout(
        f.account_number as u64,
        f.instance as u64,
        f.account_type as u64,
        f.universe as u64,
    );
}

/// Two values with the same four fields are the same value.
pub proof fn lemma_fields_decide(x: u64, y: u64)
    requires
        fields_of(x) == fields_of(y),
    ensures
        x == y,
{
    lemma_pack_unpack(x);
    lemma_pack_unpack(y);
}

} // verus!
