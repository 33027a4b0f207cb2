//! The access registry: who may act as a relayer, and who may change that.

use vstd::prelude::*;
use crate::address::Address;
use crate::address_set::AddressSet;

verus! {

/// Why a registry call was refused.
#[derive(Clone, Copy, Debug, PartialEq, Eq, Structural)]
pub enum Error {
    /// The caller is not the admin.
    Unauthorized,
}

/// The registry as a mathematical value.
pub struct RegistryView {
    pub admin: Address,
    pub relayers: Set<Address>,
}

impl RegistryView {
    /// Only the admin may change the registry.
    pub open spec fn authorizes(self, caller: Address) -> bool {
        caller == self.admin
    }

    /// The registry after `relayer` was made a member.
    pub open spec fn with_relayer(self, relayer: Address) -> RegistryView {
        RegistryView { relayers: self.relayers.insert(relayer), ..self }
    }

    /// The registry after the membership of `relayer` ended.
    pub open spec fn without_relayer(self, relayer: Address) -> RegistryView {
        RegistryView { relayers: self.relayers.remove(relayer), ..self }
    }

    /// The registry after the admin role went to `new_admin`.
    pub open spec fn with_admin(self, new_admin: Address) -> RegistryView {
        RegistryView { admin: new_admin, ..self }
    }
}

/// The set of relayers and the one admin who may change it.
pub struct RelayerRegistry {
    admin: Address,
    relayers: AddressSet,
}

impl View for RelayerRegistry {
    type V = RegistryView;

    closed spec fn view(&self) -> RegistryView {
        RegistryView { admin: self.admin, relayers: self.relayers@ }
    }
}

impl RelayerRegistry {
    /// A registry without relayers whose admin is the deploying caller.
    pub fn init(caller: Address) -> (registry: RelayerRegistry)
        ensures
            registry@ == (RegistryView { admin: caller, relayers: Set::empty() }),
    {
        RelayerRegistry { admin: caller, relayers: AddressSet::new() }
    }

    /// The registry with the given admin and relayers, as it was stored.
    pub fn restore(admin: Address, relayers: Vec<Address>) -> (registry: RelayerRegistry)
        ensures
            registry@ == (RegistryView { admin, relayers: relayers@.to_set() }),
    {
        RelayerRegistry { admin, relayers: AddressSet::from_vec(relayers) }
    }

    /// The admin and the relayers, for storing.
    pub fn into_parts(self) -> (parts: (Address, Vec<Address>))
        ensures
            self@ == (RegistryView { admin: parts.0, relayers: parts.1@.to_set() }),
    {
        (self.admin, self.relayers.into_vec())
    }

    /// The current admin.
    pub fn admin(&self) -> (a: Address)
        ensures
            a == self@.admin,
    {
        self.admin
    }

    /// Makes `relayer` a member, for the admin only.
    pub fn add_relayer(&mut self, caller: Address, relayer: Address) -> (r: Result<(), Error>)
        ensures
            r == (if old(self)@.authorizes(caller) {
                Ok::<(), Error>(())
            } else {
                Err(Error::Unauthorized)
            }),
            final(self)@ == (if old(self)@.authorizes(caller) {
                old(self)@.with_relayer(relayer)
            } else {
                old(self)@
            }),
    {
        if caller != self.admin {
            return Err(Error::Unauthorized);
        }
        self.relayers.insert(relayer);
        Ok(())
    }

    /// Ends the membership of `relayer`, for the admin only.
    pub fn remove_relayer(&mut self, caller: Address, relayer: Address) -> (r: Result<(), Error>)
        ensures
            r == (if old(self)@.authorizes(caller) {
                Ok::<(), Error>(())
            } else {
                Err(Error::Unauthorized)
            }),
            final(self)@ == (if old(self)@.authorizes(caller) {
                old(self)@.without_relayer(relayer)
            } else {
                old(self)@
            }),
    {
        if caller != self.admin {
            return Err(Error::Unauthorized);
        }
        self.relayers.remove(relayer);
        Ok(())
    }

    /// Whether `address` is a relayer. An unknown principal is none.
    pub fn is_relayer(&self, address: Address) -> (r: bool)
        ensures
            r == self@.relayers.contains(address),
    {
        self.relayers.contains(address)
    }

    /// Hands the admin role to `new_admin` in one step, for the admin only.
    /// Nothing checks that `new_admin` can act: a wrong address locks the role.
    pub fn transfer_admin(&mut self, caller: Address, new_admin: Address) -> (r: Result<
        (),
        Error,
    >)
        ensures
            r == (if old(self)@.authorizes(caller) {
                Ok::<(), Error>(())
            } else {
                Err(Error::Unauthorized)
            }),
            final(self)@ == (if old(self)@.authorizes(caller) {
                old(self)@.with_admin(new_admin)
            } else {
                old(self)@
            }),
    {
        if caller != self.admin {
            return Err(Error::Unauthorized);
        }
        self.admin = new_admin;
        Ok(())
    }
}

/// Adding a relayer is idempotent: after one addition the principal is a
/// member, and a second addition leaves the registry as the first left it.
pub proof fn lemma_add_relayer_idempotent(registry: RegistryView, relayer: Address)
    ensures
        registry.with_relayer(relayer).relayers.contains(relayer),
        registry.with_relayer(relayer).with_relayer(relayer) == registry.with_relayer(relayer),
{
    assert(registry.relayers.insert(relayer).insert(relayer) =~= registry.relayers.insert(
        relayer,
    ));
}

/// Removing a relayer is idempotent: after one removal the principal is no
/// member, and a second removal leaves the registry as the first left it.
pub proof fn lemma_remove_relayer_idempotent(registry: RegistryView, relayer: Address)
    ensures
        !registry.without_relayer(relayer).relayers.contains(relayer),
        registry.without_relayer(relayer).without_relayer(relayer) == registry.without_relayer(
            relayer,
        ),
        !registry.relayers.contains(relayer) ==> registry.without_relayer(relayer) == registry,
{
    assert(registry.relayers.remove(relayer).remove(relayer) =~= registry.relayers.remove(
        relayer,
    ));
    if !registry.relayers.contains(relayer) {
        assert(registry.relayers.remove(relayer) =~= registry.relayers);
    }
}

/// Membership changes never move the admin role, so the admin who made one
/// change is still authorized for the next.
pub proof fn lemma_membership_keeps_admin(registry: RegistryView, relayer: Address, caller: Address)
    ensures
        registry.with_relayer(relayer).authorizes(caller) == registry.authorizes(caller),
        registry.without_relayer(relayer).authorizes(caller) == registry.authorizes(caller),
{
}

} // verus!
