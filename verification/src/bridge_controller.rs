//! The controller: the administrative front of the bridge.

use vstd::prelude::*;
use crate::address::Address;
use crate::address_set::AddressSet;

verus! {

/// Why a controller call was refused.
#[derive(Clone, Copy, Debug, PartialEq, Eq, Structural)]
pub enum Error {
    /// The caller is not the admin.
    Unauthorized,
}

/// The controller as a mathematical value.
pub struct ControllerView {
    pub admin: Address,
    pub relayers: Set<Address>,
}

impl ControllerView {
    /// Only the admin may change the controller.
    pub open spec fn authorizes(self, caller: Address) -> bool {
        caller == self.admin
    }

    /// What a call by `caller` returns: the admin succeeds, anyone else is
    /// refused.
    pub open spec fn verdict(self, caller: Address) -> Result<(), Error> {
        if self.authorizes(caller) {
            Ok(())
        } else {
            Err(Error::Unauthorized)
        }
    }

    /// The state after a call by `caller` that would lead to `changed`: a
    /// refused call changes nothing.
    pub open spec fn gated(self, caller: Address, changed: ControllerView) -> ControllerView {
        if self.authorizes(caller) {
            changed
        } else {
            self
        }
    }

    /// The controller after `relayer` was made a member.
    pub open spec fn with_relayer(self, relayer: Address) -> ControllerView {
        ControllerView { relayers: self.relayers.insert(relayer), ..self }
    }

    /// The controller after the membership of `relayer` ended.
    pub open spec fn without_relayer(self, relayer: Address) -> ControllerView {
        ControllerView { relayers: self.relayers.remove(relayer), ..self }
    }

    /// The controller after the admin role went to `new_admin`.
    pub open spec fn with_admin(self, new_admin: Address) -> ControllerView {
        ControllerView { admin: new_admin, ..self }
    }
}

/// One admin identity and the relayer set it governs.
pub struct BridgeController {
    admin: Address,
    relayers: AddressSet,
}

impl View for BridgeController {
    type V = ControllerView;

    closed spec fn view(&self) -> ControllerView {
        ControllerView { admin: self.admin, relayers: self.relayers@ }
    }
}

impl BridgeController {
    /// A controller without relayers whose admin is the deploying caller.
    pub fn init(caller: Address) -> (controller: BridgeController)
        ensures
            controller@ == (ControllerView { admin: caller, relayers: Set::empty() }),
    {
        BridgeController { admin: caller, relayers: AddressSet::new() }
    }

    /// The controller with the given admin and relayers, as it was stored.
    pub fn restore(admin: Address, relayers: Vec<Address>) -> (controller: BridgeController)
        ensures
            controller@ == (ControllerView { admin, relayers: relayers@.to_set() }),
    {
        BridgeController { admin, relayers: AddressSet::from_vec(relayers) }
    }

    /// The admin and the relayers, for storing.
    pub fn into_parts(self) -> (parts: (Address, Vec<Address>))
        ensures
            self@ == (ControllerView { admin: parts.0, relayers: parts.1@.to_set() }),
    {
        (self.admin, self.relayers.into_vec())
    }

    /// The current admin.
    pub fn admin(&self) -> (a: Address)
        ensures
            a == self@.admin,
    {
        self.admin
    }

    /// Whether `address` is a relayer. An unknown principal is none.
    pub fn is_relayer(&self, address: Address) -> (r: bool)
        ensures
            r == self@.relayers.contains(address),
    {
        self.relayers.contains(address)
    }

    /// Makes `relayer` a member, for the admin only.
    pub fn add_relayer(&mut self, caller: Address, relayer: Address) -> (r: Result<(), Error>)
        ensures
            r == old(self)@.verdict(caller),
            final(self)@ == old(self)@.gated(caller, old(self)@.with_relayer(relayer)),
    {
        if caller != self.admin {
            return Err(Error::Unauthorized);
        }
        self.relayers.insert(relayer);
        Ok(())
    }

    /// Ends the membership of `relayer`, for the admin only.
    pub fn remove_relayer(&mut self, caller: Address, relayer: Address) -> (r: Result<(), Error>)
        ensures
            r == old(self)@.verdict(caller),
            final(self)@ == old(self)@.gated(caller, old(self)@.without_relayer(relayer)),
    {
        if caller != self.admin {
            return Err(Error::Unauthorized);
        }
        self.relayers.remove(relayer);
        Ok(())
    }

    /// Hands the admin role to `new_admin` in one step, for the admin only.
    pub fn set_admin(&mut self, caller: Address, new_admin: Address) -> (r: Result<(), Error>)
        ensures
            r == old(self)@.verdict(caller),
            final(self)@ == old(self)@.gated(caller, old(self)@.with_admin(new_admin)),
    {
        if caller != self.admin {
            return Err(Error::Unauthorized);
        }
        self.admin = new_admin;
        Ok(())
    }
}

/// Adding and removing are idempotent on the controller's relayer set: doing
/// either twice leaves what doing it once left.
pub proof fn lemma_membership_idempotent(controller: ControllerView, relayer: Address)
    ensures
        controller.with_relayer(relayer).relayers.contains(relayer),
        controller.with_relayer(relayer).with_relayer(relayer) == controller.with_relayer(
            relayer,
        ),
        !controller.without_relayer(relayer).relayers.contains(relayer),
        controller.without_relayer(relayer).without_relayer(relayer)
            == controller.without_relayer(relayer),
{
    assert(controller.relayers.insert(relayer).insert(relayer) =~= controller.relayers.insert(
        relayer,
    ));
    assert(controller.relayers.remove(relayer).remove(relayer) =~= controller.relayers.remove(
        relayer,
    ));
}

/// After the admin role was handed over, the former admin is refused and the
/// new one is served, unless both are the same principal.
pub proof fn lemma_set_admin_moves_role(
    controller: ControllerView,
    new_admin: Address,
    caller: Address,
)
    ensures
        controller.with_admin(new_admin).authorizes(caller) <==> caller == new_admin,
{
}

} // verus!
