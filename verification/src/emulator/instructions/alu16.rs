use vstd::prelude::*;
use super::operand::Operands;
use crate::emulator::bus::{Bus, BusView};
use crate::emulator::cpu::{offset_address, signed, wrap16, Cpu};

verus! {

/// The stack pointer moved by the signed byte `raw`, and the flags that go
/// with it: Z and N are cleared, H and C tell the carries out of bit 3 and
/// out of bit 7 when `raw` is added, unsigned, to the low byte of the stack
/// pointer.
pub open spec fn sp_offset(cpu: Cpu, raw: u8) -> (Cpu, u16) {
    (
        cpu.with_znhc(false, false, cpu.sp % 16 + raw % 16 > 15, cpu.sp % 256 + raw > 255),
        wrap16(cpu.sp + signed(raw)),
    )
}

#[verifier::opaque]
pub open spec fn add_sp_i8_spec(cpu: Cpu, bus: BusView) -> Cpu {
    let fetched = cpu.fetch_byte(bus);
    let moved = sp_offset(fetched.0, fetched.1);
    Cpu { sp: moved.1, ..moved.0 }
}

/// The operands of a sixteen-bit addition: the signed byte to the stack
/// pointer, or a register pair or the stack pointer to HL or to the stack
/// pointer.
pub open spec fn add_operands(operand1: Operands, operand2: Operands) -> bool {
    (operand1 is SP && operand2 is I8) || ((operand1 is HL || operand1 is SP) && operand2.is_wide_register())
}

/// The processor after a sixteen-bit addition: N is cleared, H tells a
/// carry out of bit 11, C one out of bit 15, and Z stays.
#[verifier::opaque]
pub open spec fn add_spec(cpu: Cpu, bus: BusView, operand1: Operands, operand2: Operands) -> Cpu {
    if operand1 is SP && operand2 is I8 {
        add_sp_i8_spec(cpu, bus)
    } else {
        let lhs = cpu.wide_register(operand1);
        let rhs = cpu.wide_register(operand2);
        cpu.with_znhc(cpu.flag_z(), false, lhs % 0x1000 + rhs % 0x1000 > 0xFFF, lhs + rhs > 0xFFFF).with_wide_register(
            operand1,
            wrap16(lhs + rhs),
        )
    }
}

/// The processor after a register pair is counted up by one; no flag
/// changes.
#[verifier::opaque]
pub open spec fn inc_spec(cpu: Cpu, operand1: Operands) -> Cpu {
    cpu.with_wide_register(operand1, wrap16(cpu.wide_register(operand1) + 1))
}

/// The processor after a register pair is counted down by one; no flag
/// changes.
#[verifier::opaque]
pub open spec fn dec_spec(cpu: Cpu, operand1: Operands) -> Cpu {
    cpu.with_wide_register(operand1, wrap16(cpu.wide_register(operand1) - 1))
}

/// Sets the flags of the stack pointer's move by `raw` and returns where
/// it comes to.
pub fn offset_sp(cpu: &mut Cpu, raw: u8) -> (r: u16)
    ensures
        (*final(cpu), r) == sp_offset(*old(cpu), raw),
{
    let low = (cpu.sp % 256) as u16;
    cpu.set_flags(false, false, low % 16 + (raw % 16) as u16 > 15, low + raw as u16 > 255);
    offset_address(cpu.sp, raw)
}

/// Adds a register pair or the stack pointer to HL or to the stack pointer.
fn add_wide(cpu: &mut Cpu, operand1: Operands, operand2: Operands)
    requires
        operand1 is HL || operand1 is SP,
        operand2.is_wide_register(),
    ensures
        *final(cpu) == ({
            let lhs = old(cpu).wide_register(operand1);
            let rhs = old(cpu).wide_register(operand2);
            old(cpu).with_znhc(
                old(cpu).flag_z(),
                false,
                lhs % 0x1000 + rhs % 0x1000 > 0xFFF,
                lhs + rhs > 0xFFFF,
            ).with_wide_register(operand1, wrap16(lhs + rhs))
        }),
{
    let rhs = cpu.get_wide_register(operand2);
    let lhs = cpu.get_wide_register(operand1);
    let res = lhs.wrapping_add(rhs);
    let z = cpu.z();
    cpu.set_flags(z, false, (lhs % 0x1000) + (rhs % 0x1000) > 0xFFF, lhs as u32 + rhs as u32 > 0xFFFF);
    cpu.set_wide_register(operand1, res);
}

pub fn add_sp_i8(cpu: &mut Cpu, bus: &Bus)
    requires
        bus@.wf(),
    ensures
        *final(cpu) == add_sp_i8_spec(*old(cpu), bus@),
{
    proof {
        reveal(add_sp_i8_spec);
    }
    let rhs_raw = cpu.next_byte(bus);
    let res = offset_sp(cpu, rhs_raw);
    cpu.sp = res;
}

pub fn add(cpu: &mut Cpu, bus: &Bus, operand1: Operands, operand2: Operands)
    requires
        bus@.wf(),
        add_operands(operand1, operand2),
    ensures
        *final(cpu) == add_spec(*old(cpu), bus@, operand1, operand2),
{
    proof {
        reveal(add_spec);
    }
    if matches!(operand1, Operands::SP) && matches!(operand2, Operands::I8) {
        add_sp_i8(cpu, bus);
        return ;
    }
    add_wide(cpu, operand1, operand2);
}

pub fn inc(cpu: &mut Cpu, _bus: &Bus, operand1: Operands)
    requires
        operand1.is_wide_register(),
    ensures
        *final(cpu) == inc_spec(*old(cpu), operand1),
{
    proof {
        reveal(inc_spec);
    }
    let rhs = cpu.get_wide_register(operand1);
    cpu.set_wide_register(operand1, rhs.wrapping_add(1));
}

pub fn dec(cpu: &mut Cpu, _bus: &Bus, operand1: Operands)
    requires
        operand1.is_wide_register(),
    ensures
        *final(cpu) == dec_spec(*old(cpu), operand1),
{
    proof {
        reveal(dec_spec);
    }
    let rhs = cpu.get_wide_register(operand1);
    cpu.set_wide_register(operand1, rhs.wrapping_sub(1));
}

} // verus!
