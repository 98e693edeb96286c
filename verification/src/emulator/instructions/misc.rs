use vstd::prelude::*;
pub use super::alu8::{ccf, cpl, scf};
use super::operand::Operands;
use crate::emulator::bus::{Bus, BusView};
use crate::emulator::cpu::Cpu;

verus! {

/// `value` with its two nibbles exchanged.
pub open spec fn swapped(value: u8) -> u8 {
    (value % 16 * 16 + value / 16) as u8
}

/// The processor and the bus after SWAP: the nibbles of the operand are
/// exchanged, Z tells whether it is zero, and the other flags are cleared.
#[verifier::opaque]
pub open spec fn swap_spec(cpu: Cpu, bus: BusView, operand: Operands) -> (Cpu, BusView) {
    let res = swapped(cpu.operand_value(bus, operand));
    cpu.with_znhc(res == 0, false, false, false).with_operand_value(bus, operand, res)
}

pub fn swap(cpu: &mut Cpu, bus: &mut Bus, operand: Operands)
    requires
        old(bus)@.wf(),
        operand.is_register_or_hl(),
    ensures
        (*final(cpu), final(bus)@) == swap_spec(*old(cpu), old(bus)@, operand),
        final(bus)@.wf(),
{
    proof {
        reveal(swap_spec);
    }
    let src = cpu.read_operand(bus, operand);
    let lo_nib = src % 16;
    let hi_nib = src / 16;
    let res = lo_nib * 16 + hi_nib;
    cpu.set_flags(res == 0, false, false, false);
    cpu.write_operand(bus, operand, res);
}

} // verus!
