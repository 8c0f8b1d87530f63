//! The order of identifiers: that of their packed 64-bit values.

use vstd::prelude::*;
use core::cmp::Ordering;
use crate::steam_id::SteamID;

verus! {

impl PartialOrd for SteamID {
    fn partial_cmp(&self, other: &SteamID) -> (r: Option<Ordering>) {
        let a: u64 = self.to_u64();
        let b: u64 = other.to_u64();
        if a < b {
            Some(Ordering::Less)
        } else if a == b {
            Some(Ordering::Equal)
        } else {
            Some(Ordering::Greater)
        }
    }
}

impl vstd::std_specs::cmp::PartialOrdSpecImpl for SteamID {
    open spec fn obeys_partial_cmp_spec() -> bool {
        true
    }

    open spec fn partial_cmp_spec(&self, other: &SteamID) -> Option<Ordering> {
        if self@ < other@ {
            Some(Ordering::Less)
        } else if self@ == other@ {
            Some(Ordering::Equal)
        } else {
            Some(Ordering::Greater)
        }
    }
}

} // verus!
