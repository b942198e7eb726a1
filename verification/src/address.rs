//! Account identities handled by the contracts.

use vstd::prelude::*;

verus! {

/// A ledger account, identified by its textual key (a Stellar strkey).
#[derive(Debug)]
pub struct Address {
    pub key: String,
}

impl Clone for Address {
    fn clone(&self) -> (r: Address)
        ensures
            r == *self,
    {
        Address { key: self.key.clone() }
    }
}

impl Address {
    /// The account with the given key.
    pub fn new(key: String) -> (a: Address)
        ensures
            a.key == key,
    {
        Address { key }
    }
}

impl PartialEq for Address {
    fn eq(&self, other: &Address) -> (r: bool) {
        self.key == other.key
    }
}

impl vstd::std_specs::cmp::PartialEqSpecImpl for Address {
    open spec fn obeys_eq_spec() -> bool {
        true
    }

    open spec fn eq_spec(&self, other: &Address) -> bool {
        self.key@ == other.key@
    }
}

impl Eq for Address {}

} // verus!
