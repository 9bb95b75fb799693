use vstd::prelude::*;
use crate::utils::fixed_size_set::FixedSizeSet;

verus! {

broadcast use vstd::laws_eq::group_laws_eq;

/// The addresses the debugger watches (at most 255) and the last one hit.
pub struct MemoryWatcher {
    pub watching_addrs: FixedSizeSet<u16, 0xFF>,
    pub hit_addr: Option<u16>,
}

impl MemoryWatcher {
    /// Nothing watched, nothing hit.
    pub fn new() -> (r: Self)
        ensures
            r.watching_addrs.wf(),
            r.watching_addrs@ == Seq::<u16>::empty(),
            r.hit_addr is None,
    {
        MemoryWatcher { watching_addrs: FixedSizeSet::new(), hit_addr: None }
    }

    /// Watches an address; there must be room unless it is watched already.
    pub fn add_address(&mut self, address: u16)
        requires
            old(self).watching_addrs.wf(),
            !old(self).watching_addrs@.contains(address) ==> old(self).watching_addrs@.len() < 0xFF,
        ensures
            final(self).watching_addrs.wf(),
            old(self).watching_addrs@.contains(address) ==> final(self).watching_addrs@ == old(self).watching_addrs@,
            !old(self).watching_addrs@.contains(address) ==> final(self).watching_addrs@ == old(
            self).watching_addrs@.push(address),
            final(self).hit_addr == old(self).hit_addr,
    {
        self.watching_addrs.add(address)
    }

    /// Stops watching an address; tells whether it was watched.
    pub fn try_remove_address(&mut self, address: u16) -> (r: bool)
        requires
            old(self).watching_addrs.wf(),
        ensures
            final(self).watching_addrs.wf(),
            r == old(self).watching_addrs@.contains(address),
            final(self).watching_addrs@ == old(self).watching_addrs@.remove_value(address),
            final(self).hit_addr == old(self).hit_addr,
    {
        self.watching_addrs.try_remove(address)
    }
}

} // verus!
