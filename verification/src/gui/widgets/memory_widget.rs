use vstd::prelude::*;
use crate::emulator::bus::Bus;

verus! {

/// Memory to be shown, with the addresses that are to stand out.
pub struct MemoryWidgetState<'a> {
    pub memory: &'a Bus,
    pub marked_address: Vec<u16>,
}

impl MemoryWidgetState<'_> {
    pub fn new(memory: &Bus, marked_address: Vec<u16>) -> (r: MemoryWidgetState<'_>)
        ensures
            r.memory@ == memory@,
            r.marked_address@ == marked_address@,
    {
        MemoryWidgetState { memory, marked_address }
    }

    /// Tells whether `address` is to stand out.
    pub fn is_marked(&self, address: u16) -> (r: bool)
        ensures
            r == self.marked_address@.contains(address),
    {
        let mut i: usize = 0;
        while i < self.marked_address.len()
            invariant
                i <= self.marked_address@.len(),
                forall|j: int| 0 <= j < i ==> self.marked_address@[j] != address,
            decreases self.marked_address@.len() - i,
        {
            if self.marked_address[i] == address {
                return true;
            }
            i = i + 1;
        }
        false
    }
}

} // verus!
