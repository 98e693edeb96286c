use vstd::prelude::*;
use super::operand::Operands;
use crate::emulator::bitops::{bit_is_set, test_bit, with_bit_clear, with_bit_set};
use crate::emulator::bus::{Bus, BusView};
use crate::emulator::cpu::Cpu;

verus! {

/// The bit number that `operand` carries.
pub open spec fn bit_number(operand: Operands) -> u8 {
    match operand {
        Operands::I(n) => n,
        _ => 0,
    }
}

/// The processor after BIT: Z tells that the tested bit is clear, N is
/// cleared, H is set, and C stays.
#[verifier::opaque]
pub open spec fn bit_spec(cpu: Cpu, bus: BusView, operand1: Operands, operand2: Operands) -> Cpu {
    cpu.with_znhc(
        !bit_is_set(cpu.operand_value(bus, operand2), bit_number(operand1)),
        false,
        true,
        cpu.flag_c(),
    )
}

/// The processor and the bus after SET: the bit of the operand is set, and
/// no flag changes.
#[verifier::opaque]
pub open spec fn set_spec(cpu: Cpu, bus: BusView, operand1: Operands, operand2: Operands) -> (Cpu, BusView) {
    cpu.with_operand_value(
        bus,
        operand2,
        with_bit_set(cpu.operand_value(bus, operand2), bit_number(operand1)),
    )
}

/// The processor and the bus after RES: the bit of the operand is cleared,
/// and no flag changes.
#[verifier::opaque]
pub open spec fn res_spec(cpu: Cpu, bus: BusView, operand1: Operands, operand2: Operands) -> (Cpu, BusView) {
    cpu.with_operand_value(
        bus,
        operand2,
        with_bit_clear(cpu.operand_value(bus, operand2), bit_number(operand1)),
    )
}

fn number_of(operand: Operands) -> (r: u8)
    ensures
        r == bit_number(operand),
{
    match operand {
        Operands::I(val) => val,
        _ => 0,
    }
}

pub fn bit(cpu: &mut Cpu, bus: &Bus, operand1: Operands, operand2: Operands)
    requires
        bus@.wf(),
        operand1.is_bit_number(),
        operand2.is_register_or_hl(),
    ensures
        *final(cpu) == bit_spec(*old(cpu), bus@, operand1, operand2),
{
    proof {
        reveal(bit_spec);
    }
    let b = number_of(operand1);
    let test_byte = cpu.read_operand(bus, operand2);
    let c = cpu.c();
    cpu.set_flags(!test_bit(test_byte, b), false, true, c);
}

pub fn set(cpu: &mut Cpu, bus: &mut Bus, operand1: Operands, operand2: Operands)
    requires
        old(bus)@.wf(),
        operand1.is_bit_number(),
        operand2.is_register_or_hl(),
    ensures
        (*final(cpu), final(bus)@) == set_spec(*old(cpu), old(bus)@, operand1, operand2),
        final(bus)@.wf(),
{
    proof {
        reveal(set_spec);
    }
    let b = number_of(operand1);
    let src = cpu.read_operand(bus, operand2);
    let res = src | (1u8 << b);
    cpu.write_operand(bus, operand2, res);
}

pub fn res(cpu: &mut Cpu, bus: &mut Bus, operand1: Operands, operand2: Operands)
    requires
        old(bus)@.wf(),
        operand1.is_bit_number(),
        operand2.is_register_or_hl(),
    ensures
        (*final(cpu), final(bus)@) == res_spec(*old(cpu), old(bus)@, operand1, operand2),
        final(bus)@.wf(),
{
    proof {
        reveal(res_spec);
    }
    let b = number_of(operand1);
    let src = cpu.read_operand(bus, operand2);
    let res = src & !(1u8 << b);
    cpu.write_operand(bus, operand2, res);
}

} // verus!
