use vstd::prelude::*;
use super::alu16::{offset_sp, sp_offset};
use super::operand::Operands;
use crate::emulator::bus::{Bus, BusView};
use crate::emulator::cpu::{wrap16, Cpu};

verus! {

/// The address that an operand in memory names, and the processor after
/// naming it: (HL+) and (HL-) move HL by one behind the access, the forms
/// with a byte or a word behind the opcode pass over it, and the two short
/// forms address the page 0xFF00.
pub open spec fn operand_address(cpu: Cpu, bus: BusView, operand: Operands) -> (Cpu, u16) {
    match operand {
        Operands::AddrBC => (cpu, cpu.pair_bc()),
        Operands::AddrDE => (cpu, cpu.pair_de()),
        Operands::AddrHLI => (cpu.with_hl(wrap16(cpu.pair_hl() + 1)), cpu.pair_hl()),
        Operands::AddrHLD => (cpu.with_hl(wrap16(cpu.pair_hl() - 1)), cpu.pair_hl()),
        Operands::AddrFF00_C => (cpu, (0xFF00 + cpu.c) as u16),
        Operands::AddrFF00_U8 => {
            let fetched = cpu.fetch_byte(bus);
            (fetched.0, (0xFF00 + fetched.1) as u16)
        },
        Operands::AddrU16 => cpu.fetch_short(bus),
        _ => (cpu, cpu.pair_hl()),
    }
}

/// The byte that an eight-bit load reads, and the processor after reading.
pub open spec fn load_source(cpu: Cpu, bus: BusView, operand: Operands) -> (Cpu, u8) {
    if operand is U8 {
        cpu.fetch_byte(bus)
    } else if operand.is_address() {
        let place = operand_address(cpu, bus, operand);
        (place.0, bus.read(place.1))
    } else {
        (cpu, cpu.register(operand))
    }
}

/// The processor and the bus after an eight-bit load has written `value`.
pub open spec fn load_target(cpu: Cpu, bus: BusView, operand: Operands, value: u8) -> (Cpu, BusView) {
    if operand.is_address() {
        let place = operand_address(cpu, bus, operand);
        (place.0, bus.write(place.1, value))
    } else {
        (cpu.with_register(operand, value), bus)
    }
}

/// The processor and the bus after an eight-bit load: the source is read,
/// then the target written. No flag changes.
#[verifier::opaque]
pub open spec fn load8_spec(cpu: Cpu, bus: BusView, operand1: Operands, operand2: Operands) -> (Cpu, BusView) {
    let source = load_source(cpu, bus, operand2);
    load_target(source.0, bus, operand1, source.1)
}

/// What a sixteen-bit load can read from: the word behind the opcode, HL,
/// the stack pointer, or the stack pointer moved by a signed byte.
pub open spec fn is_wide_source(operand: Operands) -> bool {
    operand is U16 || operand is HL || operand is SP || operand is SP_i8
}

/// What a sixteen-bit load can write to: a register pair, the stack
/// pointer, or the two bytes at the address behind the opcode.
pub open spec fn is_wide_target(operand: Operands) -> bool {
    operand.is_wide_register() || operand is AddrU16
}

/// The word that a sixteen-bit load reads, and the processor after
/// reading. Only the form with the moved stack pointer changes flags.
pub open spec fn load16_source(cpu: Cpu, bus: BusView, operand: Operands) -> (Cpu, u16) {
    match operand {
        Operands::U16 => cpu.fetch_short(bus),
        Operands::HL => (cpu, cpu.pair_hl()),
        Operands::SP_i8 => {
            let fetched = cpu.fetch_byte(bus);
            sp_offset(fetched.0, fetched.1)
        },
        _ => (cpu, cpu.sp),
    }
}

/// The processor and the bus after a sixteen-bit load has written `value`;
/// into memory it goes low byte first.
pub open spec fn load16_target(cpu: Cpu, bus: BusView, operand: Operands, value: u16) -> (Cpu, BusView) {
    if operand is AddrU16 {
        let fetched = cpu.fetch_short(bus);
        (fetched.0, bus.write(fetched.1, (value % 256) as u8).write(wrap16(fetched.1 + 1), (value / 256) as u8))
    } else {
        (cpu.with_wide_register(operand, value), bus)
    }
}

/// The processor and the bus after a sixteen-bit load.
#[verifier::opaque]
pub open spec fn load16_spec(cpu: Cpu, bus: BusView, operand1: Operands, operand2: Operands) -> (Cpu, BusView) {
    let source = load16_source(cpu, bus, operand2);
    load16_target(source.0, bus, operand1, source.1)
}

/// Names the address of an operand in memory.
fn address_of(cpu: &mut Cpu, bus: &Bus, operand: Operands) -> (r: u16)
    requires
        bus@.wf(),
        operand.is_address(),
    ensures
        (*final(cpu), r) == operand_address(*old(cpu), bus@, operand),
{
    match operand {
        Operands::AddrBC => cpu.bc(),
        Operands::AddrDE => cpu.de(),
        Operands::AddrHLI => {
            let address = cpu.hl();
            cpu.set_hl(address.wrapping_add(1));
            address
        },
        Operands::AddrHLD => {
            let address = cpu.hl();
            cpu.set_hl(address.wrapping_sub(1));
            address
        },
        Operands::AddrFF00_C => 0xFF00 + cpu.c as u16,
        Operands::AddrFF00_U8 => 0xFF00 + cpu.next_byte(bus) as u16,
        Operands::AddrU16 => cpu.next_short(bus),
        _ => cpu.hl(),
    }
}

pub fn load8(cpu: &mut Cpu, bus: &mut Bus, operand1: Operands, operand2: Operands)
    requires
        old(bus)@.wf(),
        operand1.is_load_target(),
        operand2.is_load_source(),
    ensures
        (*final(cpu), final(bus)@) == load8_spec(*old(cpu), old(bus)@, operand1, operand2),
        final(bus)@.wf(),
{
    proof {
        reveal(load8_spec);
    }
    let src: u8 = match operand2 {
        Operands::U8 => cpu.next_byte(bus),
        Operands::AddrBC
        | Operands::AddrHL
        | Operands::AddrDE
        | Operands::AddrHLI
        | Operands::AddrHLD
        | Operands::AddrFF00_C
        | Operands::AddrFF00_U8
        | Operands::AddrU16 => {
            let address = address_of(cpu, bus, operand2);
            bus.read_byte(address)
        },
        _ => cpu.get_register(operand2),
    };
    match operand1 {
        Operands::AddrBC
        | Operands::AddrHL
        | Operands::AddrDE
        | Operands::AddrHLI
        | Operands::AddrHLD
        | Operands::AddrFF00_C
        | Operands::AddrFF00_U8
        | Operands::AddrU16 => {
            let address = address_of(cpu, bus, operand1);
            bus.write_byte(address, src);
        },
        _ => cpu.set_register(operand1, src),
    }
}

/// Reads the source of a sixteen-bit load.
fn read_wide(cpu: &mut Cpu, bus: &Bus, operand: Operands) -> (r: u16)
    requires
        bus@.wf(),
        is_wide_source(operand),
    ensures
        (*final(cpu), r) == load16_source(*old(cpu), bus@, operand),
{
    match operand {
        Operands::U16 => cpu.next_short(bus),
        Operands::HL => cpu.hl(),
        Operands::SP_i8 => {
            let rhs_raw = cpu.next_byte(bus);
            offset_sp(cpu, rhs_raw)
        },
        _ => cpu.sp,
    }
}

/// Writes a word into memory, low byte first.
fn write_word(bus: &mut Bus, address: u16, value: u16)
    requires
        old(bus)@.wf(),
    ensures
        final(bus)@ == old(bus)@.write(address, (value % 256) as u8).write(
            wrap16(address + 1),
            (value / 256) as u8,
        ),
        final(bus)@.wf(),
{
    bus.write_byte(address, (value % 256) as u8);
    bus.write_byte(address.wrapping_add(1), (value / 256) as u8);
}

pub fn load16(cpu: &mut Cpu, bus: &mut Bus, operand1: Operands, operand2: Operands)
    requires
        old(bus)@.wf(),
        is_wide_target(operand1),
        is_wide_source(operand2),
    ensures
        (*final(cpu), final(bus)@) == load16_spec(*old(cpu), old(bus)@, operand1, operand2),
        final(bus)@.wf(),
{
    proof {
        reveal(load16_spec);
    }
    let src = read_wide(cpu, bus, operand2);
    match operand1 {
        Operands::AddrU16 => {
            let address = cpu.next_short(bus);
            write_word(bus, address, src);
        },
        _ => cpu.set_wide_register(operand1, src),
    }
}

} // verus!
