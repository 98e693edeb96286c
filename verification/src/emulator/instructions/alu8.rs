use vstd::prelude::*;
use super::operand::Operands;
use crate::emulator::bus::{Bus, BusView};
use crate::emulator::cpu::{wrap8, Cpu};

verus! {

/// The processor after `rhs` and `carry` are added to the accumulator: H
/// tells a carry out of the low nibble, C one out of the byte.
pub open spec fn with_sum(cpu: Cpu, rhs: u8, carry: int) -> Cpu {
    let sum = cpu.a + rhs + carry;
    Cpu { a: wrap8(sum), ..cpu.with_znhc(wrap8(sum) == 0, false, cpu.a % 16 + rhs % 16 + carry > 15, sum > 255) }
}

/// The flags after `rhs` and `borrow` are taken from the accumulator, which
/// stays: H tells a borrow into the low nibble, C one into the byte.
pub open spec fn with_comparison(cpu: Cpu, rhs: u8, borrow: int) -> Cpu {
    cpu.with_znhc(wrap8(cpu.a - rhs - borrow) == 0, true, cpu.a % 16 < rhs % 16 + borrow, cpu.a < rhs + borrow)
}

/// The processor after `rhs` and `borrow` are taken from the accumulator.
pub open spec fn with_difference(cpu: Cpu, rhs: u8, borrow: int) -> Cpu {
    Cpu { a: wrap8(cpu.a - rhs - borrow), ..with_comparison(cpu, rhs, borrow) }
}

/// The processor with `value` in the accumulator as the result of a
/// bitwise operation, which sets H as given and clears N and C.
pub open spec fn with_logic(cpu: Cpu, value: u8, h: bool) -> Cpu {
    Cpu { a: value, ..cpu.with_znhc(value == 0, false, h, false) }
}

#[verifier::opaque]
pub open spec fn add_spec(cpu: Cpu, bus: BusView, operand2: Operands) -> Cpu {
    let source = cpu.byte_source(bus, operand2);
    with_sum(source.0, source.1, 0)
}

#[verifier::opaque]
pub open spec fn adc_spec(cpu: Cpu, bus: BusView, operand2: Operands) -> Cpu {
    let source = cpu.byte_source(bus, operand2);
    with_sum(source.0, source.1, cpu.carry())
}

#[verifier::opaque]
pub open spec fn sub_spec(cpu: Cpu, bus: BusView, operand: Operands) -> Cpu {
    let source = cpu.byte_source(bus, operand);
    with_difference(source.0, source.1, 0)
}

#[verifier::opaque]
pub open spec fn sbc_spec(cpu: Cpu, bus: BusView, operand: Operands) -> Cpu {
    let source = cpu.byte_source(bus, operand);
    with_difference(source.0, source.1, cpu.carry())
}

#[verifier::opaque]
pub open spec fn cp_spec(cpu: Cpu, bus: BusView, operand: Operands) -> Cpu {
    let source = cpu.byte_source(bus, operand);
    with_comparison(source.0, source.1, 0)
}

#[verifier::opaque]
pub open spec fn and_spec(cpu: Cpu, bus: BusView, operand: Operands) -> Cpu {
    let source = cpu.byte_source(bus, operand);
    with_logic(source.0, cpu.a & source.1, true)
}

#[verifier::opaque]
pub open spec fn or_spec(cpu: Cpu, bus: BusView, operand: Operands) -> Cpu {
    let source = cpu.byte_source(bus, operand);
    with_logic(source.0, cpu.a | source.1, false)
}

#[verifier::opaque]
pub open spec fn xor_spec(cpu: Cpu, bus: BusView, operand: Operands) -> Cpu {
    let source = cpu.byte_source(bus, operand);
    with_logic(source.0, cpu.a ^ source.1, false)
}

/// The processor and the bus after the operand is counted up by one: H
/// tells a carry out of the low nibble, C stays.
#[verifier::opaque]
pub open spec fn inc_spec(cpu: Cpu, bus: BusView, operand: Operands) -> (Cpu, BusView) {
    let value = cpu.operand_value(bus, operand);
    cpu.with_znhc(wrap8(value + 1) == 0, false, value % 16 == 15, cpu.flag_c()).with_operand_value(
        bus,
        operand,
        wrap8(value + 1),
    )
}

/// The processor and the bus after the operand is counted down by one: H
/// tells a borrow into the low nibble, C stays.
#[verifier::opaque]
pub open spec fn dec_spec(cpu: Cpu, bus: BusView, operand: Operands) -> (Cpu, BusView) {
    let value = cpu.operand_value(bus, operand);
    cpu.with_znhc(wrap8(value - 1) == 0, true, value % 16 == 0, cpu.flag_c()).with_operand_value(
        bus,
        operand,
        wrap8(value - 1),
    )
}

/// What DAA adds to the accumulator, or takes from it after a subtraction,
/// to make it two decimal digits again.
pub open spec fn daa_adjustment(cpu: Cpu) -> int {
    if cpu.flag_n() {
        (if cpu.flag_h() { 0x06int } else { 0 }) + (if cpu.flag_c() { 0x60int } else { 0 })
    } else {
        (if cpu.flag_h() || cpu.a % 16 > 9 { 0x06int } else { 0 }) + (if cpu.flag_c() || cpu.a > 0x99 {
            0x60int
        } else {
            0
        })
    }
}

/// The processor after DAA: the accumulator is adjusted, H is cleared, N
/// stays, and C is set after an addition exactly if the high digit was
/// adjusted, and stays after a subtraction.
#[verifier::opaque]
pub open spec fn daa_spec(cpu: Cpu) -> Cpu {
    let a = if cpu.flag_n() {
        wrap8(cpu.a - daa_adjustment(cpu))
    } else {
        wrap8(cpu.a + daa_adjustment(cpu))
    };
    Cpu {
        a,
        ..cpu.with_znhc(a == 0, cpu.flag_n(), false, cpu.flag_c() || (!cpu.flag_n() && cpu.a > 0x99))
    }
}

/// The processor after CPL: every bit of the accumulator is turned over,
/// N and H are set.
#[verifier::opaque]
pub open spec fn cpl_spec(cpu: Cpu) -> Cpu {
    Cpu { a: (255 - cpu.a) as u8, ..cpu.with_znhc(cpu.flag_z(), true, true, cpu.flag_c()) }
}

/// The processor after CCF: C is turned over, N and H are cleared.
#[verifier::opaque]
pub open spec fn ccf_spec(cpu: Cpu) -> Cpu {
    cpu.with_znhc(cpu.flag_z(), false, false, !cpu.flag_c())
}

/// The processor after SCF: C is set, N and H are cleared.
#[verifier::opaque]
pub open spec fn scf_spec(cpu: Cpu) -> Cpu {
    cpu.with_znhc(cpu.flag_z(), false, false, true)
}

fn add_to_a(cpu: &mut Cpu, rhs: u8, carry: bool)
    ensures
        *final(cpu) == with_sum(*old(cpu), rhs, if carry { 1 } else { 0 }),
{
    let c: u16 = if carry { 1 } else { 0 };
    let sum: u16 = cpu.a as u16 + rhs as u16 + c;
    let half: u16 = (cpu.a % 16) as u16 + (rhs % 16) as u16 + c;
    let res = (sum % 256) as u8;
    cpu.set_flags(res == 0, false, half > 15, sum > 255);
    cpu.a = res;
}

fn compare_with_a(cpu: &mut Cpu, rhs: u8, borrow: bool) -> (res: u8)
    ensures
        *final(cpu) == with_comparison(*old(cpu), rhs, if borrow { 1 } else { 0 }),
        res == wrap8(old(cpu).a - rhs - (if borrow { 1int } else { 0 })),
{
    let c: u16 = if borrow { 1 } else { 0 };
    let taken: u16 = rhs as u16 + c;
    let res: u8 = if cpu.a as u16 >= taken {
        (cpu.a as u16 - taken) as u8
    } else {
        (256 + cpu.a as u16 - taken) as u8
    };
    let half = ((cpu.a % 16) as u16) < (rhs % 16) as u16 + c;
    let full = (cpu.a as u16) < taken;
    cpu.set_flags(res == 0, true, half, full);
    res
}

fn logic_into_a(cpu: &mut Cpu, value: u8, h: bool)
    ensures
        *final(cpu) == with_logic(*old(cpu), value, h),
{
    cpu.set_flags(value == 0, false, h, false);
    cpu.a = value;
}

pub fn daa(cpu: &mut Cpu)
    ensures
        *final(cpu) == daa_spec(*old(cpu)),
{
    proof {
        reveal(daa_spec);
    }
    let mut a = cpu.a;
    let mut adjust: u8 = 0;
    let mut carry = cpu.c();

    if cpu.n() {
        if cpu.h() {
            adjust = adjust + 0x06;
        }
        if cpu.c() {
            adjust = adjust + 0x60;
        }
        a = a.wrapping_sub(adjust);
    } else {
        if cpu.h() || (a % 16) > 0x09 {
            adjust = adjust + 0x06;
        }
        if cpu.c() || a > 0x99 {
            adjust = adjust + 0x60;
            carry = true;
        }
        a = a.wrapping_add(adjust);
    }
    let n = cpu.n();
    cpu.set_flags(a == 0, n, false, carry);
    cpu.a = a;
}

pub fn cpl(cpu: &mut Cpu)
    ensures
        *final(cpu) == cpl_spec(*old(cpu)),
{
    proof {
        reveal(cpl_spec);
    }
    let z = cpu.z();
    let c = cpu.c();
    cpu.a = 255 - cpu.a;
    cpu.set_flags(z, true, true, c);
}

pub fn ccf(cpu: &mut Cpu)
    ensures
        *final(cpu) == ccf_spec(*old(cpu)),
{
    proof {
        reveal(ccf_spec);
    }
    let z = cpu.z();
    let c = cpu.c();
    cpu.set_flags(z, false, false, !c);
}

pub fn scf(cpu: &mut Cpu)
    ensures
        *final(cpu) == scf_spec(*old(cpu)),
{
    proof {
        reveal(scf_spec);
    }
    let z = cpu.z();
    cpu.set_flags(z, false, false, true);
}

pub fn add(cpu: &mut Cpu, bus: &Bus, _operand1: Operands, operand2: Operands)
    requires
        bus@.wf(),
        operand2.is_byte_source(),
    ensures
        *final(cpu) == add_spec(*old(cpu), bus@, operand2),
{
    proof {
        reveal(add_spec);
    }
    let rhs = cpu.read_source(bus, operand2);
    add_to_a(cpu, rhs, false);
}

pub fn adc(cpu: &mut Cpu, bus: &Bus, _operand1: Operands, operand2: Operands)
    requires
        bus@.wf(),
        operand2.is_byte_source(),
    ensures
        *final(cpu) == adc_spec(*old(cpu), bus@, operand2),
{
    proof {
        reveal(adc_spec);
    }
    let rhs = cpu.read_source(bus, operand2);
    let carry = cpu.c();
    add_to_a(cpu, rhs, carry);
}

pub fn sub(cpu: &mut Cpu, bus: &Bus, operand: Operands)
    requires
        bus@.wf(),
        operand.is_byte_source(),
    ensures
        *final(cpu) == sub_spec(*old(cpu), bus@, operand),
{
    proof {
        reveal(sub_spec);
    }
    let rhs = cpu.read_source(bus, operand);
    let res = compare_with_a(cpu, rhs, false);
    cpu.a = res;
}

pub fn sbc(cpu: &mut Cpu, bus: &Bus, _operand0: Operands, operand: Operands)
    requires
        bus@.wf(),
        operand.is_byte_source(),
    ensures
        *final(cpu) == sbc_spec(*old(cpu), bus@, operand),
{
    proof {
        reveal(sbc_spec);
    }
    let rhs = cpu.read_source(bus, operand);
    let carry = cpu.c();
    let res = compare_with_a(cpu, rhs, carry);
    cpu.a = res;
}

pub fn and(cpu: &mut Cpu, bus: &Bus, operand: Operands)
    requires
        bus@.wf(),
        operand.is_byte_source(),
    ensures
        *final(cpu) == and_spec(*old(cpu), bus@, operand),
{
    proof {
        reveal(and_spec);
    }
    let rhs = cpu.read_source(bus, operand);
    let res = cpu.a & rhs;
    logic_into_a(cpu, res, true);
}

pub fn or(cpu: &mut Cpu, bus: &Bus, operand: Operands)
    requires
        bus@.wf(),
        operand.is_byte_source(),
    ensures
        *final(cpu) == or_spec(*old(cpu), bus@, operand),
{
    proof {
        reveal(or_spec);
    }
    let rhs = cpu.read_source(bus, operand);
    let res = cpu.a | rhs;
    logic_into_a(cpu, res, false);
}

pub fn xor(cpu: &mut Cpu, bus: &Bus, operand: Operands)
    requires
        bus@.wf(),
        operand.is_byte_source(),
    ensures
        *final(cpu) == xor_spec(*old(cpu), bus@, operand),
{
    proof {
        reveal(xor_spec);
    }
    let rhs = cpu.read_source(bus, operand);
    let res = cpu.a ^ rhs;
    logic_into_a(cpu, res, false);
}

pub fn cp(cpu: &mut Cpu, bus: &Bus, operand: Operands)
    requires
        bus@.wf(),
        operand.is_byte_source(),
    ensures
        *final(cpu) == cp_spec(*old(cpu), bus@, operand),
{
    proof {
        reveal(cp_spec);
    }
    let rhs = cpu.read_source(bus, operand);
    let _ = compare_with_a(cpu, rhs, false);
}

pub fn inc(cpu: &mut Cpu, bus: &mut Bus, operand: Operands)
    requires
        old(bus)@.wf(),
        operand.is_register_or_hl(),
    ensures
        (*final(cpu), final(bus)@) == inc_spec(*old(cpu), old(bus)@, operand),
        final(bus)@.wf(),
{
    proof {
        reveal(inc_spec);
    }
    let value = cpu.read_operand(bus, operand);
    let res = value.wrapping_add(1);
    let c = cpu.c();
    cpu.set_flags(res == 0, false, value % 16 == 15, c);
    cpu.write_operand(bus, operand, res);
}

pub fn dec(cpu: &mut Cpu, bus: &mut Bus, operand: Operands)
    requires
        old(bus)@.wf(),
        operand.is_register_or_hl(),
    ensures
        (*final(cpu), final(bus)@) == dec_spec(*old(cpu), old(bus)@, operand),
        final(bus)@.wf(),
{
    proof {
        reveal(dec_spec);
    }
    let value = cpu.read_operand(bus, operand);
    let res = value.wrapping_sub(1);
    let c = cpu.c();
    cpu.set_flags(res == 0, true, value % 16 == 0, c);
    cpu.write_operand(bus, operand, res);
}

} // verus!
