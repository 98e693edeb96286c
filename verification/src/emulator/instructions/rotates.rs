use vstd::prelude::*;
use super::operand::Operands;
use crate::emulator::bus::{Bus, BusView};
use crate::emulator::cpu::{wrap8, Cpu};

verus! {

/// `value` moved one bit to the left, with `low` (0 or 1) coming in as
/// bit 0.
pub open spec fn shifted_left(value: u8, low: int) -> u8 {
    wrap8(value * 2 + low)
}

/// `value` moved one bit to the right, with `high` (0 or 1) coming in as
/// bit 7.
pub open spec fn shifted_right(value: u8, high: int) -> u8 {
    (value / 2 + high * 128) as u8
}

/// The accumulator becomes `result`; Z, N and H are cleared, C is as given.
pub open spec fn with_rotated_a(cpu: Cpu, result: u8, carry: bool) -> Cpu {
    Cpu { a: result, ..cpu.with_znhc(false, false, false, carry) }
}

/// The operand becomes `result`; Z tells whether it is zero, N and H are
/// cleared, C is as given.
pub open spec fn with_shifted(cpu: Cpu, bus: BusView, operand: Operands, result: u8, carry: bool) -> (
    Cpu,
    BusView,
) {
    cpu.with_znhc(result == 0, false, false, carry).with_operand_value(bus, operand, result)
}

/// RLCA: the accumulator turns left; bit 7 goes to bit 0 and to C.
#[verifier::opaque]
pub open spec fn rlca_spec(cpu: Cpu) -> Cpu {
    with_rotated_a(cpu, shifted_left(cpu.a, cpu.a as int / 128), cpu.a >= 128)
}

/// RLA: the accumulator turns left through C.
#[verifier::opaque]
pub open spec fn rla_spec(cpu: Cpu) -> Cpu {
    with_rotated_a(cpu, shifted_left(cpu.a, cpu.carry()), cpu.a >= 128)
}

/// RRCA: the accumulator turns right; bit 0 goes to bit 7 and to C.
#[verifier::opaque]
pub open spec fn rrca_spec(cpu: Cpu) -> Cpu {
    with_rotated_a(cpu, shifted_right(cpu.a, cpu.a as int % 2), cpu.a % 2 == 1)
}

/// RRA: the accumulator turns right through C.
#[verifier::opaque]
pub open spec fn rra_spec(cpu: Cpu) -> Cpu {
    with_rotated_a(cpu, shifted_right(cpu.a, cpu.carry()), cpu.a % 2 == 1)
}

/// RLC: the operand turns left; bit 7 goes to bit 0 and to C.
#[verifier::opaque]
pub open spec fn rlc_spec(cpu: Cpu, bus: BusView, operand: Operands) -> (Cpu, BusView) {
    let src = cpu.operand_value(bus, operand);
    with_shifted(cpu, bus, operand, shifted_left(src, src as int / 128), src >= 128)
}

/// RRC: the operand turns right; bit 0 goes to bit 7 and to C.
#[verifier::opaque]
pub open spec fn rrc_spec(cpu: Cpu, bus: BusView, operand: Operands) -> (Cpu, BusView) {
    let src = cpu.operand_value(bus, operand);
    with_shifted(cpu, bus, operand, shifted_right(src, src as int % 2), src % 2 == 1)
}

/// RR: the operand turns right through C.
#[verifier::opaque]
pub open spec fn rr_spec(cpu: Cpu, bus: BusView, operand: Operands) -> (Cpu, BusView) {
    let src = cpu.operand_value(bus, operand);
    with_shifted(cpu, bus, operand, shifted_right(src, cpu.carry()), src % 2 == 1)
}

/// RL: the operand turns left through C.
#[verifier::opaque]
pub open spec fn rl_spec(cpu: Cpu, bus: BusView, operand: Operands) -> (Cpu, BusView) {
    let src = cpu.operand_value(bus, operand);
    with_shifted(cpu, bus, operand, shifted_left(src, cpu.carry()), src >= 128)
}

/// SLA: the operand moves left; bit 7 goes to C and bit 0 is cleared.
#[verifier::opaque]
pub open spec fn sla_spec(cpu: Cpu, bus: BusView, operand: Operands) -> (Cpu, BusView) {
    let src = cpu.operand_value(bus, operand);
    with_shifted(cpu, bus, operand, shifted_left(src, 0), src >= 128)
}

/// SRA: the operand moves right; bit 0 goes to C and bit 7 stays.
#[verifier::opaque]
pub open spec fn sra_spec(cpu: Cpu, bus: BusView, operand: Operands) -> (Cpu, BusView) {
    let src = cpu.operand_value(bus, operand);
    with_shifted(cpu, bus, operand, shifted_right(src, src as int / 128), src % 2 == 1)
}

/// SRL: the operand moves right; bit 0 goes to C and bit 7 is cleared.
#[verifier::opaque]
pub open spec fn srl_spec(cpu: Cpu, bus: BusView, operand: Operands) -> (Cpu, BusView) {
    let src = cpu.operand_value(bus, operand);
    with_shifted(cpu, bus, operand, shifted_right(src, 0), src % 2 == 1)
}

fn left(value: u8, low: u8) -> (r: u8)
    requires
        low <= 1,
    ensures
        r == shifted_left(value, low as int),
{
    (value % 128) * 2 + low
}

fn right(value: u8, high: u8) -> (r: u8)
    requires
        high <= 1,
    ensures
        r == shifted_right(value, high as int),
{
    value / 2 + high * 128
}

fn carry_of(cpu: &Cpu) -> (r: u8)
    ensures
        r == cpu.carry(),
{
    if cpu.c() {
        1
    } else {
        0
    }
}

fn rotate_a(cpu: &mut Cpu, result: u8, carry: bool)
    ensures
        *final(cpu) == with_rotated_a(*old(cpu), result, carry),
{
    cpu.set_flags(false, false, false, carry);
    cpu.a = result;
}

fn store_shifted(cpu: &mut Cpu, bus: &mut Bus, operand: Operands, result: u8, carry: bool)
    requires
        old(bus)@.wf(),
        operand.is_register_or_hl(),
    ensures
        (*final(cpu), final(bus)@) == with_shifted(*old(cpu), old(bus)@, operand, result, carry),
        final(bus)@.wf(),
{
    cpu.set_flags(result == 0, false, false, carry);
    cpu.write_operand(bus, operand, result);
}

pub fn rlca(cpu: &mut Cpu)
    ensures
        *final(cpu) == rlca_spec(*old(cpu)),
{
    proof {
        reveal(rlca_spec);
    }
    let msb = cpu.a / 128;
    let res = left(cpu.a, msb);
    rotate_a(cpu, res, msb == 1);
}

pub fn rla(cpu: &mut Cpu)
    ensures
        *final(cpu) == rla_spec(*old(cpu)),
{
    proof {
        reveal(rla_spec);
    }
    let msb = cpu.a / 128;
    let res = left(cpu.a, carry_of(cpu));
    rotate_a(cpu, res, msb == 1);
}

pub fn rrca(cpu: &mut Cpu)
    ensures
        *final(cpu) == rrca_spec(*old(cpu)),
{
    proof {
        reveal(rrca_spec);
    }
    let lsb = cpu.a % 2;
    let res = right(cpu.a, lsb);
    rotate_a(cpu, res, lsb == 1);
}

pub fn rra(cpu: &mut Cpu)
    ensures
        *final(cpu) == rra_spec(*old(cpu)),
{
    proof {
        reveal(rra_spec);
    }
    let lsb = cpu.a % 2;
    let res = right(cpu.a, carry_of(cpu));
    rotate_a(cpu, res, lsb == 1);
}

pub fn rlc(cpu: &mut Cpu, bus: &mut Bus, operand: Operands)
    requires
        old(bus)@.wf(),
        operand.is_register_or_hl(),
    ensures
        (*final(cpu), final(bus)@) == rlc_spec(*old(cpu), old(bus)@, operand),
        final(bus)@.wf(),
{
    proof {
        reveal(rlc_spec);
    }
    let src = cpu.read_operand(bus, operand);
    let msb = src / 128;
    store_shifted(cpu, bus, operand, left(src, msb), msb == 1);
}

pub fn rrc(cpu: &mut Cpu, bus: &mut Bus, operand: Operands)
    requires
        old(bus)@.wf(),
        operand.is_register_or_hl(),
    ensures
        (*final(cpu), final(bus)@) == rrc_spec(*old(cpu), old(bus)@, operand),
        final(bus)@.wf(),
{
    proof {
        reveal(rrc_spec);
    }
    let src = cpu.read_operand(bus, operand);
    let lsb = src % 2;
    store_shifted(cpu, bus, operand, right(src, lsb), lsb == 1);
}

pub fn rr(cpu: &mut Cpu, bus: &mut Bus, operand: Operands)
    requires
        old(bus)@.wf(),
        operand.is_register_or_hl(),
    ensures
        (*final(cpu), final(bus)@) == rr_spec(*old(cpu), old(bus)@, operand),
        final(bus)@.wf(),
{
    proof {
        reveal(rr_spec);
    }
    let src = cpu.read_operand(bus, operand);
    let lsb = src % 2;
    let res = right(src, carry_of(cpu));
    store_shifted(cpu, bus, operand, res, lsb == 1);
}

pub fn rl(cpu: &mut Cpu, bus: &mut Bus, operand: Operands)
    requires
        old(bus)@.wf(),
        operand.is_register_or_hl(),
    ensures
        (*final(cpu), final(bus)@) == rl_spec(*old(cpu), old(bus)@, operand),
        final(bus)@.wf(),
{
    proof {
        reveal(rl_spec);
    }
    let src = cpu.read_operand(bus, operand);
    let msb = src / 128;
    let res = left(src, carry_of(cpu));
    store_shifted(cpu, bus, operand, res, msb == 1);
}

pub fn sla(cpu: &mut Cpu, bus: &mut Bus, operand: Operands)
    requires
        old(bus)@.wf(),
        operand.is_register_or_hl(),
    ensures
        (*final(cpu), final(bus)@) == sla_spec(*old(cpu), old(bus)@, operand),
        final(bus)@.wf(),
{
    proof {
        reveal(sla_spec);
    }
    let src = cpu.read_operand(bus, operand);
    let msb = src / 128;
    store_shifted(cpu, bus, operand, left(src, 0), msb == 1);
}

pub fn sra(cpu: &mut Cpu, bus: &mut Bus, operand: Operands)
    requires
        old(bus)@.wf(),
        operand.is_register_or_hl(),
    ensures
        (*final(cpu), final(bus)@) == sra_spec(*old(cpu), old(bus)@, operand),
        final(bus)@.wf(),
{
    proof {
        reveal(sra_spec);
    }
    let src = cpu.read_operand(bus, operand);
    let msb = src / 128;
    let lsb = src % 2;
    store_shifted(cpu, bus, operand, right(src, msb), lsb == 1);
}

pub fn srl(cpu: &mut Cpu, bus: &mut Bus, operand: Operands)
    requires
        old(bus)@.wf(),
        operand.is_register_or_hl(),
    ensures
        (*final(cpu), final(bus)@) == srl_spec(*old(cpu), old(bus)@, operand),
        final(bus)@.wf(),
{
    proof {
        reveal(srl_spec);
    }
    let src = cpu.read_operand(bus, operand);
    let lsb = src % 2;
    store_shifted(cpu, bus, operand, right(src, 0), lsb == 1);
}

} // verus!
