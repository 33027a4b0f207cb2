//! A finite set of principals.

use vstd::prelude::*;
use crate::address::Address;

verus! {

/// A finite set of addresses. A principal that was never added is not a
/// member.
pub struct AddressSet {
    members: Vec<Address>,
}

/// Appending an element to a sequence adds it to the set of its elements.
pub proof fn lemma_push_to_set(s: Seq<Address>, a: Address)
    ensures
        s.push(a).to_set() == s.to_set().insert(a),
{
    assert forall|x: Address| s.push(a).to_set().contains(x) <==> s.to_set().insert(a).contains(
        x,
    ) by {
        if s.push(a).contains(x) {
            let i = choose|i: int| 0 <= i < s.push(a).len() && s.push(a)[i] == x;
            if i < s.len() {
                assert(s[i] == x);
            }
        }
        if s.contains(x) {
            let i = choose|i: int| 0 <= i < s.len() && s[i] == x;
            assert(s.push(a)[i] == x);
        }
        if x == a {
            assert(s.push(a)[s.len() as int] == x);
        }
    }
    assert(s.push(a).to_set() =~= s.to_set().insert(a));
}

impl View for AddressSet {
    type V = Set<Address>;

    closed spec fn view(&self) -> Set<Address> {
        self.members@.to_set()
    }
}

impl AddressSet {
    /// The empty set.
    pub fn new() -> (s: AddressSet)
        ensures
            s@ == Set::<Address>::empty(),
    {
        let s = AddressSet { members: Vec::new() };
        assert(s.members@.to_set() =~= Set::<Address>::empty());
        s
    }

    /// The set of the elements of `members`. Repeated elements count once.
    pub fn from_vec(members: Vec<Address>) -> (s: AddressSet)
        ensures
            s@ == members@.to_set(),
    {
        AddressSet { members }
    }

    /// The members as a list, in no particular order.
    pub fn into_vec(self) -> (members: Vec<Address>)
        ensures
            members@.to_set() == self@,
    {
        self.members
    }

    /// Whether `a` is a member.
    pub fn contains(&self, a: Address) -> (r: bool)
        ensures
            r == self@.contains(a),
    {
        let mut i: usize = 0;
        while i < self.members.len()
            invariant
                i <= self.members.len(),
                forall|j: int| 0 <= j < i ==> self.members@[j] != a,
            decreases self.members.len() - i,
        {
            if self.members[i] == a {
                assert(self.members@.contains(a));
                return true;
            }
            i += 1;
        }
        false
    }

    /// Makes `a` a member. Adding a member again changes nothing.
    pub fn insert(&mut self, a: Address)
        ensures
            final(self)@ == old(self)@.insert(a),
    {
        if !self.contains(a) {
            proof {
                lemma_push_to_set(self.members@, a);
            }
            self.members.push(a);
        } else {
            assert(self@.insert(a) =~= self@);
        }
    }

    /// Ends the membership of `a`. Removing a non-member changes nothing.
    pub fn remove(&mut self, a: Address)
        ensures
            final(self)@ == old(self)@.remove(a),
    {
        let mut kept: Vec<Address> = Vec::new();
        let mut i: usize = 0;
        assert(self.members@.take(0).to_set().remove(a) =~= kept@.to_set());
        while i < self.members.len()
            invariant
                i <= self.members.len(),
                kept@.to_set() == self.members@.take(i as int).to_set().remove(a),
            decreases self.members.len() - i,
        {
            let m = self.members[i];
            proof {
                assert(self.members@.take(i + 1) =~= self.members@.take(i as int).push(m));
                lemma_push_to_set(self.members@.take(i as int), m);
                lemma_push_to_set(kept@, m);
                let before = self.members@.take(i as int).to_set();
                if m == a {
                    assert(before.insert(m).remove(a) =~= before.remove(a));
                } else {
                    assert(before.insert(m).remove(a) =~= before.remove(a).insert(m));
                }
            }
            if m != a {
                kept.push(m);
            }
            i += 1;
        }
        assert(self.members@.take(self.members@.len() as int) =~= self.members@);
        self.members = kept;
    }
}

} // verus!
