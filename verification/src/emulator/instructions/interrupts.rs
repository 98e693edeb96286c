use vstd::prelude::*;
use crate::emulator::cpu::Cpu;
use crate::emulator::interrupt::InterruptState;

verus! {

/// EI: interrupts are switched on, but only once the instruction that
/// follows has been fetched.
pub fn ei(cpu: &mut Cpu)
    ensures
        *final(cpu) == (Cpu { i_enable_flag: true, ..*old(cpu) }),
{
    cpu.i_enable_flag = true;
}

/// DI: interrupts are switched off at once.
pub fn di(interrupt: &mut InterruptState)
    ensures
        *final(interrupt) == (InterruptState { ime: false, ..*old(interrupt) }),
{
    interrupt.ime = false;
}

} // verus!
