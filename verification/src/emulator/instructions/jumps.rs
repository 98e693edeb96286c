use vstd::prelude::*;
use super::operand::Operands;
use crate::emulator::bus::{Bus, BusView};
use crate::emulator::cpu::{offset_address, signed, wrap16, Cpu};

verus! {

/// The processor after JP u16: the program counter is the word that
/// follows the opcode.
#[verifier::opaque]
pub open spec fn jpnn_spec(cpu: Cpu, bus: BusView) -> Cpu {
    let fetched = cpu.fetch_short(bus);
    Cpu { pc: fetched.1, ..fetched.0 }
}

/// The processor after JP HL.
#[verifier::opaque]
pub open spec fn jphl_spec(cpu: Cpu) -> Cpu {
    Cpu { pc: cpu.pair_hl(), ..cpu }
}

/// The processor after JP cc,u16: the jump is made if the condition
/// holds, and the target is passed over if not.
#[verifier::opaque]
pub open spec fn jpccnn_spec(cpu: Cpu, bus: BusView, operand1: Operands) -> Cpu {
    if cpu.condition(operand1) {
        jpnn_spec(cpu, bus)
    } else {
        cpu.fetch_short(bus).0
    }
}

/// The processor after JR i8: the program counter moves by the signed
/// byte, counted from behind the instruction.
#[verifier::opaque]
pub open spec fn jr_spec(cpu: Cpu, bus: BusView) -> Cpu {
    let fetched = cpu.fetch_byte(bus);
    Cpu { pc: wrap16(fetched.0.pc + signed(fetched.1)), ..fetched.0 }
}

/// The processor after JR cc,i8.
#[verifier::opaque]
pub open spec fn jrccn_spec(cpu: Cpu, bus: BusView, operand1: Operands) -> Cpu {
    if cpu.condition(operand1) {
        jr_spec(cpu, bus)
    } else {
        Cpu { pc: wrap16(cpu.pc + 1), ..cpu }
    }
}

pub fn jpnn(cpu: &mut Cpu, bus: &Bus)
    requires
        bus@.wf(),
    ensures
        *final(cpu) == jpnn_spec(*old(cpu), bus@),
{
    proof {
        reveal(jpnn_spec);
    }
    let address = cpu.next_short(bus);
    cpu.pc = address;
}

/// Jumps to where HL points; tells, as the conditional jumps do, whether
/// the shorter of two timings applies, which here is never.
pub fn jphl(cpu: &mut Cpu, _bus: &Bus) -> (r: bool)
    ensures
        *final(cpu) == jphl_spec(*old(cpu)),
        !r,
{
    proof {
        reveal(jphl_spec);
    }
    cpu.pc = cpu.hl();
    false
}

/// Jumps if the condition holds, and tells whether it did.
pub fn jpccnn(cpu: &mut Cpu, bus: &Bus, operand1: Operands, _operand2: Operands) -> (taken: bool)
    requires
        bus@.wf(),
    ensures
        *final(cpu) == jpccnn_spec(*old(cpu), bus@, operand1),
        taken == old(cpu).condition(operand1),
{
    proof {
        reveal(jpccnn_spec);
        reveal(jpnn_spec);
    }
    let condition = cpu.test_condition(operand1);
    let address = cpu.next_short(bus);
    if condition {
        cpu.pc = address;
        return true;
    }
    false
}

pub fn jr(cpu: &mut Cpu, bus: &Bus)
    requires
        bus@.wf(),
    ensures
        *final(cpu) == jr_spec(*old(cpu), bus@),
{
    proof {
        reveal(jr_spec);
    }
    let offset = cpu.next_byte(bus);
    cpu.pc = offset_address(cpu.pc, offset);
}

/// Jumps if the condition holds, and tells whether it did.
pub fn jrccn(cpu: &mut Cpu, bus: &Bus, operand1: Operands, _operand2: Operands) -> (taken: bool)
    requires
        bus@.wf(),
    ensures
        *final(cpu) == jrccn_spec(*old(cpu), bus@, operand1),
        taken == old(cpu).condition(operand1),
{
    proof {
        reveal(jrccn_spec);
    }
    let condition = cpu.test_condition(operand1);
    if condition {
        jr(cpu, bus);
        true
    } else {
        cpu.pc = cpu.pc.wrapping_add(1);
        false
    }
}

} // verus!
