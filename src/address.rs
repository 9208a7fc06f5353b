//! Account and contract identities.

use vstd::prelude::*;
use crate::table::KeyEq;

verus! {

/// An account or contract on the ledger, identified by a number.
#[derive(Clone, Copy, Debug, PartialEq, Eq, Structural, Hash)]
pub struct Address {
    pub id: u64,
}

impl View for Address {
    type V = u64;

    open spec fn view(&self) -> u64 {
        self.id
    }
}

impl KeyEq for Address {
    fn key_eq(&self, other: &Self) -> (r: bool) {
        self.id == other.id
    }
}

impl Address {
    pub fn from_id(id: u64) -> (r: Address)
        ensures
            r.id == id,
    {
        Address { id }
    }
}

} // verus!
