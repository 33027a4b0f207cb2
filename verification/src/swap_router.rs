//! The swap router: records that a swap was asked for. It prices nothing and
//! moves nothing.

use vstd::prelude::*;
use crate::address::Address;
use crate::uint::U256;

verus! {

/// The notification of one swap.
#[derive(Clone, Copy, Debug, PartialEq, Eq, Structural)]
pub struct SwapExecuted {
    pub sender: Address,
    pub token_in: Address,
    pub amount_in: U256,
    pub amount_out: U256,
    pub recipient: Address,
}

/// The router and its owner.
pub struct SwapRouter {
    owner: Address,
}

impl SwapRouter {
    /// The owner, fixed at deployment.
    pub closed spec fn owner_id(&self) -> Address {
        self.owner
    }

    /// A router owned by the deploying caller.
    pub fn init(caller: Address) -> (router: SwapRouter)
        ensures
            router.owner_id() == caller,
    {
        SwapRouter { owner: caller }
    }

    /// The owner, fixed at deployment.
    pub fn owner(&self) -> (a: Address)
        ensures
            a == self.owner_id(),
    {
        self.owner
    }

    /// The notification to emit for a swap that `caller` asked for. The
    /// router's state does not change.
    pub fn swap(
        &self,
        caller: Address,
        token_in: Address,
        amount_in: U256,
        amount_out: U256,
        recipient: Address,
    ) -> (event: SwapExecuted)
        ensures
            event == (SwapExecuted { sender: caller, token_in, amount_in, amount_out, recipient }),
    {
        SwapExecuted { sender: caller, token_in, amount_in, amount_out, recipient }
    }
}

} // verus!
