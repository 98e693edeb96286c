use vstd::prelude::*;
use super::bitops::with_bit_set;
use super::interrupt::ADDRESS_IF;
use super::memory::{Memory, MemoryView};

verus! {

/// Raises the request flag of source `interrupt` in the flags as they lie
/// in a flat memory.
pub fn request_interrupt(interrupt: u8, memory: &mut Memory)
    requires
        interrupt < 8,
    ensures
        final(memory)@ == (MemoryView {
            memory: old(memory)@.memory.update(
                ADDRESS_IF as int,
                with_bit_set(old(memory)@.memory[ADDRESS_IF as int], interrupt),
            ),
            ..old(memory)@
        }),
{
    let flags = memory.get_byte(ADDRESS_IF);
    memory.write_byte_uncheck(ADDRESS_IF, flags | (1u8 << interrupt));
}

} // verus!
