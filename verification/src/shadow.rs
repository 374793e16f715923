//! Which guest memory an intercepted call may touch.

use vstd::prelude::*;
use crate::symbols::GuestAddr;

verus! {

/// A run of `len` accessible bytes that starts at `start`.
#[derive(Clone, Copy, Debug, PartialEq, Eq, Structural)]
pub struct Region {
    pub start: GuestAddr,
    pub len: usize,
}

impl Region {
    /// Whether the `len` bytes at `addr` all lie in this region.
    pub open spec fn holds(self, addr: int, len: int) -> bool {
        self.start <= addr && addr + len <= self.start + self.len
    }
}

/// The accessibility metadata of guest memory: the regions that may be
/// accessed.
///
/// An access is valid when it touches no byte, or when one region holds all of
/// it. An access that runs from one region into the next has left the object
/// it started in, and is not valid.
pub struct ShadowRegion {
    regions: Vec<Region>,
}

impl View for ShadowRegion {
    type V = Seq<Region>;

    closed spec fn view(&self) -> Seq<Region> {
        self.regions@
    }
}

impl ShadowRegion {
    /// Whether an access to the `len` bytes at `addr` is valid.
    pub open spec fn accessible(&self, addr: int, len: int) -> bool {
        len == 0 || exists|i: int| 0 <= i < self@.len() && (#[trigger] self@[i]).holds(addr, len)
    }

    /// Metadata under which no byte is accessible.
    pub fn new() -> (shadow: ShadowRegion)
        ensures
            shadow@ == Seq::<Region>::empty(),
    {
        ShadowRegion { regions: Vec::new() }
    }

    /// Makes the `len` bytes at `start` accessible.
    pub fn allow(&mut self, start: GuestAddr, len: usize)
        ensures
            final(self)@ == old(self)@.push(Region { start, len }),
    {
        self.regions.push(Region { start, len });
    }

    /// Validates an access to the `len` bytes at `addr`.
    pub fn is_accessible(&self, addr: GuestAddr, len: usize) -> (valid: bool)
        ensures
            valid == self.accessible(addr as int, len as int),
    {
        if len == 0 {
            return true;
        }
        let mut i: usize = 0;
        while i < self.regions.len()
            invariant
                i <= self.regions.len(),
                len != 0,
                forall|k: int| 0 <= k < i ==> !(#[trigger] self@[k]).holds(addr as int, len as int),
            decreases self.regions.len() - i,
        {
            let region = self.regions[i];
            if region.start <= addr && len <= region.len && addr - region.start <= region.len
                - len {
                assert(self@[i as int].holds(addr as int, len as int));
                return true;
            }
            i += 1;
        }
        false
    }
}

} // verus!
