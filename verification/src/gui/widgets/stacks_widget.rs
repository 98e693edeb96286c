use vstd::prelude::*;
use crate::emulator::bus::{Bus, BusView};

verus! {

/// Where the stack of a program begins as a rule: it grows down from here.
pub const SP_START: u16 = 0xFFFE;

/// A stack to be shown: the stack pointer, and the memory it points into.
pub struct StackWidgetState<'a> {
    pub sp: u16,
    pub memory: &'a Bus,
}

/// The words on the stack from `sp` up to where the stack begins, the top
/// of the stack first, with `so_far` before them. Each word is read low
/// byte first.
pub open spec fn stack_words(bus: BusView, sp: int, so_far: Seq<u16>) -> Seq<u16>
    decreases 0x10000 - sp,
{
    if 0 <= sp < 0xFFFE {
        stack_words(bus, sp + 2, so_far.push((bus.read((sp + 1) as u16) * 256 + bus.read(sp as u16)) as u16))
    } else {
        so_far
    }
}

impl StackWidgetState<'_> {
    pub fn new(sp: u16, memory: &Bus) -> (r: StackWidgetState<'_>)
        ensures
            r.sp == sp,
            r.memory@ == memory@,
    {
        StackWidgetState { sp, memory }
    }

    /// Reads the words on the stack, the top of the stack first.
    pub fn words(&self) -> (r: Vec<u16>)
        requires
            self.memory@.wf(),
        ensures
            r@ == stack_words(self.memory@, self.sp as int, Seq::empty()),
    {
        let mut stack_list: Vec<u16> = Vec::new();
        let mut current_stack: u32 = self.sp as u32;
        while current_stack < SP_START as u32
            invariant
                current_stack <= SP_START + 1,
                self.memory@.wf(),
                stack_words(self.memory@, current_stack as int, stack_list@) == stack_words(
                    self.memory@,
                    self.sp as int,
                    Seq::empty(),
                ),
            decreases SP_START + 1 - current_stack,
        {
            let lo = self.memory.read_byte(current_stack as u16) as u16;
            let hi = self.memory.read_byte((current_stack + 1) as u16) as u16;
            stack_list.push(hi * 256 + lo);
            current_stack = current_stack + 2;
        }
        stack_list
    }
}

} // verus!
