//! Principal identities.

use vstd::prelude::*;

verus! {

/// A principal: an account or a contract, named by a 256-bit hash that is held
/// as two 128-bit halves.
#[derive(Clone, Copy, Debug, PartialEq, Eq, Structural)]
pub struct Address {
    pub is_contract: bool,
    pub hash_hi: u128,
    pub hash_lo: u128,
}

impl Address {
    /// The account with the given hash.
    pub fn account(hash_hi: u128, hash_lo: u128) -> (a: Address)
        ensures
            a == (Address { is_contract: false, hash_hi, hash_lo }),
    {
        Address { is_contract: false, hash_hi, hash_lo }
    }

    /// The contract with the given hash.
    pub fn contract(hash_hi: u128, hash_lo: u128) -> (a: Address)
        ensures
            a == (Address { is_contract: true, hash_hi, hash_lo }),
    {
        Address { is_contract: true, hash_hi, hash_lo }
    }

    /// Whether value can be paid out to this principal: only accounts can
    /// receive a transfer out of custody.
    pub open spec fn payable(&self) -> bool {
        !self.is_contract
    }

    /// The account hash, or `None` for a contract.
    pub fn as_account_hash(&self) -> (h: Option<(u128, u128)>)
        ensures
            h == (if self.payable() {
                Some((self.hash_hi, self.hash_lo))
            } else {
                None
            }),
    {
        if self.is_contract {
            None
        } else {
            Some((self.hash_hi, self.hash_lo))
        }
    }
}

} // verus!
