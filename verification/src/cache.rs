//! The per-function address slot: resolved lazily, published once.
//!
//! A slot is either unresolved or holds one address, and a resolved slot never
//! changes again. Several callers may resolve the same function at once; each
//! computes an address and publishes it, and all of them go on with the
//! address that the slot then holds.

use vstd::prelude::*;
use crate::symbols::{FunctionDescriptor, GuestAddr, Symbols, UNRESOLVED};

verus! {

/// What a slot holds after `computed` is published into it, and the address
/// that the publisher goes on with.
///
/// A resolved slot keeps its address and hands it to the publisher. An
/// unresolved slot takes `computed`; publishing the sentinel leaves it
/// unresolved.
pub open spec fn publish_step(slot: Option<GuestAddr>, computed: GuestAddr) -> (
    Option<GuestAddr>,
    GuestAddr,
) {
    match slot {
        Some(addr) => (Some(addr), addr),
        None => (
            if computed == UNRESOLVED {
                None
            } else {
                Some(computed)
            },
            computed,
        ),
    }
}

/// One resolution against a slot: the slot afterwards and the answer.
///
/// `looked` is what the resolver says of the name, `None` for a name it does
/// not know; it is consulted only while the slot is unresolved.
pub open spec fn resolve_step(slot: Option<GuestAddr>, looked: Option<GuestAddr>) -> (
    Option<GuestAddr>,
    Option<GuestAddr>,
) {
    match slot {
        Some(addr) => (Some(addr), Some(addr)),
        None => match looked {
            Some(computed) => (publish_step(None, computed).0, Some(computed)),
            None => (None, None),
        },
    }
}

/// The address in a resolution's result, `None` for an error.
pub open spec fn answer<E>(found: Result<GuestAddr, E>) -> Option<GuestAddr> {
    match found {
        Ok(addr) => Some(addr),
        Err(_) => None,
    }
}

/// A run of resolutions against one slot, in the order in which they reach
/// it: the slot after the last and the answers, one per resolution.
pub open spec fn race(slot: Option<GuestAddr>, looked: Seq<Option<GuestAddr>>) -> (
    Option<GuestAddr>,
    Seq<Option<GuestAddr>>,
)
    decreases looked.len(),
{
    if looked.len() == 0 {
        (slot, Seq::empty())
    } else {
        let before = race(slot, looked.drop_last());
        let step = resolve_step(before.0, looked.last());
        (step.0, before.1.push(step.1))
    }
}

/// One address slot of an intercepted function.
pub struct AddressCache {
    slot: GuestAddr,
}

impl View for AddressCache {
    type V = Option<GuestAddr>;

    closed spec fn view(&self) -> Option<GuestAddr> {
        if self.slot == UNRESOLVED {
            None
        } else {
            Some(self.slot)
        }
    }
}

impl AddressCache {
    /// An unresolved slot.
    pub fn new() -> (cache: AddressCache)
        ensures
            cache@ is None,
    {
        AddressCache { slot: UNRESOLVED }
    }

    /// A slot never holds the sentinel as a resolved address.
    pub proof fn lemma_never_sentinel(&self)
        ensures
            self@ != Some(UNRESOLVED),
    {
    }

    /// The resolved address, if there is one. It is never the sentinel.
    pub fn get(&self) -> (addr: Option<GuestAddr>)
        ensures
            addr == self@,
            addr != Some(UNRESOLVED),
    {
        if self.slot == UNRESOLVED {
            None
        } else {
            Some(self.slot)
        }
    }

    /// Publishes an address that the caller has computed and returns the one
    /// that survives: the address already in the slot, if any, else `computed`.
    pub fn publish(&mut self, computed: GuestAddr) -> (survivor: GuestAddr)
        ensures
            (final(self)@, survivor) == publish_step(old(self)@, computed),
    {
        if self.slot == UNRESOLVED {
            self.slot = computed;
        }
        self.slot
    }

    /// Returns the cached address of `descriptor`, resolving it through `S` on
    /// first use.
    ///
    /// A resolved slot answers without a lookup and does not change. On an
    /// unresolved slot the result is what `S::lookup` returns for the
    /// descriptor's name: an address is published, an error leaves the slot
    /// unresolved.
    pub fn get_or_resolve<S: Symbols>(&mut self, descriptor: &FunctionDescriptor) -> (found:
        Result<GuestAddr, S::Error>)
        ensures
            (final(self)@, answer(found)) == resolve_step(old(self)@, answer(found)),
            old(self)@ is Some ==> found is Ok,
            old(self)@ is None ==> call_ensures(S::lookup, (&descriptor.name,), found),
    {
        match self.get() {
            Some(addr) => Ok(addr),
            None => {
                match S::lookup(&descriptor.name) {
                    Ok(addr) => {
                        let survivor = self.publish(addr);
                        Ok(survivor)
                    },
                    Err(e) => Err(e),
                }
            },
        }
    }
}

/// Resolving the same symbol twice yields the same answer: with a resolver
/// that says the same of a name each time, the second resolution against a
/// slot answers as the first did.
pub proof fn lemma_resolving_twice_agrees(slot: Option<GuestAddr>, looked: Option<GuestAddr>)
    ensures
        resolve_step(resolve_step(slot, looked).0, looked).1 == resolve_step(slot, looked).1,
{
}

/// A resolved slot never changes and never becomes unresolved again: it
/// answers every later resolution with its address, whatever the resolver
/// would say by then.
pub proof fn lemma_resolved_slot_is_final(addr: GuestAddr, looked: Option<GuestAddr>)
    ensures
        resolve_step(Some(addr), looked) == (Some(addr), Some(addr)),
        forall|computed: GuestAddr| publish_step(Some(addr), computed) == (Some(addr), addr),
{
}

/// Any number of first-time resolutions of one symbol converge: where every
/// caller's lookup computes the same `looked` and the slot is unresolved or
/// already holds that address, every caller gets that answer, in whatever
/// order they reach the slot, and the slot is never left holding another.
pub proof fn lemma_racers_agree(
    slot: Option<GuestAddr>,
    looked: Seq<Option<GuestAddr>>,
    agreed: Option<GuestAddr>,
)
    requires
        slot is None || (slot == agreed && agreed != Some(UNRESOLVED)),
        forall|i: int| 0 <= i < looked.len() ==> looked[i] == agreed,
    ensures
        race(slot, looked).1.len() == looked.len(),
        forall|i: int| 0 <= i < looked.len() ==> race(slot, looked).1[i] == agreed,
        race(slot, looked).0 is None || race(slot, looked).0 == agreed,
        looked.len() > 0 && agreed is Some && agreed != Some(UNRESOLVED) ==> race(slot, looked).0
            == agreed,
    decreases looked.len(),
{
    if looked.len() > 0 {
        lemma_racers_agree(slot, looked.drop_last(), agreed);
    }
}

} // verus!
