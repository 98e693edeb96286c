use vstd::prelude::*;
use super::inst_group::InstGroup;
use super::opcode::{slot, Opcode, OpcodeView};
use super::operand::Operands;
use super::{alu16, alu8, bits, interrupts, jumps, loads, misc, rotates, stack};
use crate::emulator::bus::{Bus, BusView};
use crate::emulator::cpu::Cpu;
use crate::emulator::interrupt::InterruptState;

verus! {

/// A byte that names no instruction.
#[derive(Debug, Clone, Copy, PartialEq, Eq, Structural)]
pub struct InvalidOpcode(pub u8);

/// What a decoding table says of an opcode: the instruction, its operands
/// (the absent operand where it has fewer than two), and its cost in
/// T-cycles if its condition holds and if it does not, which are the same
/// where it has no condition.
#[derive(Debug, Clone, Copy)]
pub struct Entry {
    pub group: InstGroup,
    pub operand1: Operands,
    pub operand2: Operands,
    pub cycles: i32,
    pub untaken: i32,
}

pub open spec fn plain(group: InstGroup, cycles: i32) -> Entry {
    Entry { group, operand1: Operands::NONE, operand2: Operands::NONE, cycles, untaken: cycles }
}

pub open spec fn unary(group: InstGroup, operand1: Operands, cycles: i32) -> Entry {
    Entry { group, operand1, operand2: Operands::NONE, cycles, untaken: cycles }
}

pub open spec fn binary(group: InstGroup, operand1: Operands, operand2: Operands, cycles: i32) -> Entry {
    Entry { group, operand1, operand2, cycles, untaken: cycles }
}

pub open spec fn branching(group: InstGroup, operand1: Operands, operand2: Operands, cycles: i32, untaken: i32) -> Entry {
    Entry { group, operand1, operand2, cycles, untaken }
}

/// The operand that the three-bit code `code` names: B, C, D, E, H, L, the
/// byte that HL points at, A.
pub open spec fn register_code(code: int) -> Operands {
    if code == 0 {
        Operands::B
    } else if code == 1 {
        Operands::C
    } else if code == 2 {
        Operands::D
    } else if code == 3 {
        Operands::E
    } else if code == 4 {
        Operands::H
    } else if code == 5 {
        Operands::L
    } else if code == 6 {
        Operands::AddrHL
    } else {
        Operands::A
    }
}

/// The register pair that the two-bit code `code` names where the stack
/// pointer is the fourth: BC, DE, HL, SP.
pub open spec fn wide_code(code: int) -> Operands {
    if code == 0 {
        Operands::BC
    } else if code == 1 {
        Operands::DE
    } else if code == 2 {
        Operands::HL
    } else {
        Operands::SP
    }
}

/// The register pair that the two-bit code `code` names where AF is the
/// fourth: BC, DE, HL, AF.
pub open spec fn stacked_code(code: int) -> Operands {
    if code == 0 {
        Operands::BC
    } else if code == 1 {
        Operands::DE
    } else if code == 2 {
        Operands::HL
    } else {
        Operands::AF
    }
}

/// The place in memory that the two-bit code `code` names: (BC), (DE),
/// (HL+), (HL-).
pub open spec fn indirect_code(code: int) -> Operands {
    if code == 0 {
        Operands::AddrBC
    } else if code == 1 {
        Operands::AddrDE
    } else if code == 2 {
        Operands::AddrHLI
    } else {
        Operands::AddrHLD
    }
}

/// The condition that the two-bit code `code` names: NZ, Z, NC, C.
pub open spec fn condition_code(code: int) -> Operands {
    if code == 0 {
        Operands::JR_NZ
    } else if code == 1 {
        Operands::JR_Z
    } else if code == 2 {
        Operands::JR_NC
    } else {
        Operands::JR_C
    }
}

/// The restart vector that the three-bit code `code` names: eight times
/// the code.
pub open spec fn restart_code(code: int) -> Operands {
    if code == 0 {
        Operands::H00
    } else if code == 1 {
        Operands::H08
    } else if code == 2 {
        Operands::H10
    } else if code == 3 {
        Operands::H18
    } else if code == 4 {
        Operands::H20
    } else if code == 5 {
        Operands::H28
    } else if code == 6 {
        Operands::H30
    } else {
        Operands::H38
    }
}

/// The instruction on the accumulator and the flags that the three-bit
/// code `code` names: RLCA, RRCA, RLA, RRA, DAA, CPL, SCF, CCF.
pub open spec fn accumulator_code(code: int) -> InstGroup {
    if code == 0 {
        InstGroup::Rlca
    } else if code == 1 {
        InstGroup::Rrca
    } else if code == 2 {
        InstGroup::Rla
    } else if code == 3 {
        InstGroup::Rra
    } else if code == 4 {
        InstGroup::Daa
    } else if code == 5 {
        InstGroup::Cpl
    } else if code == 6 {
        InstGroup::Scf
    } else {
        InstGroup::Ccf
    }
}

/// The rotation or shift that the three-bit code `code` names: RLC, RRC,
/// RL, RR, SLA, SRA, SWAP, SRL.
pub open spec fn shift_code(code: int) -> InstGroup {
    if code == 0 {
        InstGroup::Rlc
    } else if code == 1 {
        InstGroup::Rrc
    } else if code == 2 {
        InstGroup::Rl
    } else if code == 3 {
        InstGroup::Rr
    } else if code == 4 {
        InstGroup::Sla
    } else if code == 5 {
        InstGroup::Sra
    } else if code == 6 {
        InstGroup::Swap
    } else {
        InstGroup::Srl
    }
}

/// The arithmetic on the accumulator that the three-bit code `code` names,
/// with `operand` as what is added, taken or compared: ADD, ADC, SUB, SBC,
/// AND, XOR, OR, CP. Those that can take a carry are written with the
/// accumulator as their first operand.
pub open spec fn arithmetic_code(code: int, operand: Operands, cycles: i32) -> Entry {
    if code == 0 {
        binary(InstGroup::Add8, Operands::A, operand, cycles)
    } else if code == 1 {
        binary(InstGroup::Adc, Operands::A, operand, cycles)
    } else if code == 2 {
        unary(InstGroup::Sub, operand, cycles)
    } else if code == 3 {
        binary(InstGroup::Sbc, Operands::A, operand, cycles)
    } else if code == 4 {
        unary(InstGroup::And, operand, cycles)
    } else if code == 5 {
        unary(InstGroup::Xor, operand, cycles)
    } else if code == 6 {
        unary(InstGroup::Or, operand, cycles)
    } else {
        unary(InstGroup::Cp, operand, cycles)
    }
}

/// The table of the 256 opcodes of one byte, by the fields of the opcode:
/// its two high bits, the three bits below them, of which the upper two
/// and the lowest are also read apart, and its three low bits. Eleven
/// bytes name no instruction.
#[verifier::opaque]
pub open spec fn base_entry(byte: u8) -> Option<Entry> {
    let x = byte as int / 64;
    let y = byte as int / 8 % 8;
    let z = byte as int % 8;
    let p = y / 2;
    let q = y % 2;
    if x == 0 {
        if z == 0 {
            if y == 0 {
                Some(plain(InstGroup::Nop, 4))
            } else if y == 1 {
                Some(binary(InstGroup::Load16, Operands::AddrU16, Operands::SP, 20))
            } else if y == 2 {
                Some(plain(InstGroup::Stop, 4))
            } else if y == 3 {
                Some(unary(InstGroup::Jr, Operands::I8, 12))
            } else {
                Some(branching(InstGroup::JrCc, condition_code(y - 4), Operands::I8, 12, 8))
            }
        } else if z == 1 {
            if q == 0 {
                Some(binary(InstGroup::Load16, wide_code(p), Operands::U16, 12))
            } else {
                Some(binary(InstGroup::Add16, Operands::HL, wide_code(p), 8))
            }
        } else if z == 2 {
            if q == 0 {
                Some(binary(InstGroup::Load8, indirect_code(p), Operands::A, 8))
            } else {
                Some(binary(InstGroup::Load8, Operands::A, indirect_code(p), 8))
            }
        } else if z == 3 {
            if q == 0 {
                Some(unary(InstGroup::Inc16, wide_code(p), 8))
            } else {
                Some(unary(InstGroup::Dec16, wide_code(p), 8))
            }
        } else if z == 4 {
            Some(unary(InstGroup::Inc8, register_code(y), if y == 6 { 12 } else { 4 }))
        } else if z == 5 {
            Some(unary(InstGroup::Dec8, register_code(y), if y == 6 { 12 } else { 4 }))
        } else if z == 6 {
            Some(binary(InstGroup::Load8, register_code(y), Operands::U8, if y == 6 { 12 } else { 8 }))
        } else {
            Some(plain(accumulator_code(y), 4))
        }
    } else if x == 1 {
        if y == 6 && z == 6 {
            Some(plain(InstGroup::Halt, 4))
        } else {
            Some(binary(InstGroup::Load8, register_code(y), register_code(z), if y == 6 || z == 6 { 8 } else { 4 }))
        }
    } else if x == 2 {
        Some(arithmetic_code(y, register_code(z), if z == 6 { 8 } else { 4 }))
    } else {
        if z == 0 {
            if y < 4 {
                Some(branching(InstGroup::RetCc, condition_code(y), Operands::NONE, 20, 8))
            } else if y == 4 {
                Some(binary(InstGroup::Load8, Operands::AddrFF00_U8, Operands::A, 12))
            } else if y == 5 {
                Some(binary(InstGroup::Add16, Operands::SP, Operands::I8, 16))
            } else if y == 6 {
                Some(binary(InstGroup::Load8, Operands::A, Operands::AddrFF00_U8, 12))
            } else {
                Some(binary(InstGroup::Load16, Operands::HL, Operands::SP_i8, 12))
            }
        } else if z == 1 {
            if q == 0 {
                Some(unary(InstGroup::Pop, stacked_code(p), 12))
            } else if p == 0 {
                Some(plain(InstGroup::Ret, 16))
            } else if p == 1 {
                Some(plain(InstGroup::Reti, 16))
            } else if p == 2 {
                Some(unary(InstGroup::JpHl, Operands::HL, 4))
            } else {
                Some(binary(InstGroup::Load16, Operands::SP, Operands::HL, 8))
            }
        } else if z == 2 {
            if y < 4 {
                Some(branching(InstGroup::JpCc, condition_code(y), Operands::U16, 16, 12))
            } else if y == 4 {
                Some(binary(InstGroup::Load8, Operands::AddrFF00_C, Operands::A, 8))
            } else if y == 5 {
                Some(binary(InstGroup::Load8, Operands::AddrU16, Operands::A, 16))
            } else if y == 6 {
                Some(binary(InstGroup::Load8, Operands::A, Operands::AddrFF00_C, 8))
            } else {
                Some(binary(InstGroup::Load8, Operands::A, Operands::AddrU16, 16))
            }
        } else if z == 3 {
            if y == 0 {
                Some(unary(InstGroup::Jp, Operands::U16, 16))
            } else if y == 1 {
                Some(plain(InstGroup::Prefix, 4))
            } else if y == 6 {
                Some(plain(InstGroup::Di, 4))
            } else if y == 7 {
                Some(plain(InstGroup::Ei, 4))
            } else {
                None
            }
        } else if z == 4 {
            if y < 4 {
                Some(branching(InstGroup::CallCc, condition_code(y), Operands::U16, 24, 12))
            } else {
                None
            }
        } else if z == 5 {
            if q == 0 {
                Some(unary(InstGroup::Push, stacked_code(p), 16))
            } else if p == 0 {
                Some(unary(InstGroup::Call, Operands::U16, 24))
            } else {
                None
            }
        } else if z == 6 {
            Some(arithmetic_code(y, Operands::U8, 8))
        } else {
            Some(unary(InstGroup::Rst, restart_code(y), 16))
        }
    }
}

/// The table of the 256 opcodes behind the prefix 0xCB: the two high bits
/// choose among the shifts, BIT, RES and SET, the three bits below them the
/// shift or the bit, and the three low bits the operand.
#[verifier::opaque]
pub open spec fn prefixed_entry(byte: u8) -> Entry {
    let x = byte as int / 64;
    let y = byte as int / 8 % 8;
    let z = byte as int % 8;
    if x == 0 {
        unary(shift_code(y), register_code(z), if z == 6 { 16 } else { 8 })
    } else if x == 1 {
        binary(InstGroup::Bit, Operands::I(y as u8), register_code(z), if z == 6 { 12 } else { 8 })
    } else if x == 2 {
        binary(InstGroup::Res, Operands::I(y as u8), register_code(z), if z == 6 { 16 } else { 8 })
    } else {
        binary(InstGroup::SetBit, Operands::I(y as u8), register_code(z), if z == 6 { 16 } else { 8 })
    }
}

/// How many bytes the instruction takes, opcode and prefix included.
pub open spec fn instruction_length(entry: Entry, prefixed: bool) -> nat {
    if prefixed {
        2
    } else {
        1 + entry.operand1.encoded_length() + entry.operand2.encoded_length()
    }
}

/// An operand as it stands in a slot: the absent operand leaves the slot
/// empty.
pub open spec fn in_slot(operand: Operands) -> Option<Operands> {
    if operand is NONE {
        None
    } else {
        Some(operand)
    }
}

/// The entry as the tables hand it out for the opcode `byte`.
pub open spec fn opcode_of(byte: u8, entry: Entry, prefixed: bool) -> OpcodeView {
    OpcodeView {
        opcode_byte: byte,
        length: instruction_length(entry, prefixed),
        cycle: if entry.group.is_conditional() {
            seq![entry.cycles, entry.untaken]
        } else {
            seq![entry.cycles]
        },
        mnemonic: entry.group.name(),
        operand1: in_slot(entry.operand1),
        operand2: in_slot(entry.operand2),
        group: entry.group,
    }
}

fn plain_entry(group: InstGroup, cycles: i32) -> (r: Entry)
    ensures
        r == plain(group, cycles),
{
    Entry { group, operand1: Operands::NONE, operand2: Operands::NONE, cycles, untaken: cycles }
}

fn unary_entry(group: InstGroup, operand1: Operands, cycles: i32) -> (r: Entry)
    ensures
        r == unary(group, operand1, cycles),
{
    Entry { group, operand1, operand2: Operands::NONE, cycles, untaken: cycles }
}

fn binary_entry(group: InstGroup, operand1: Operands, operand2: Operands, cycles: i32) -> (r: Entry)
    ensures
        r == binary(group, operand1, operand2, cycles),
{
    Entry { group, operand1, operand2, cycles, untaken: cycles }
}

fn branching_entry(group: InstGroup, operand1: Operands, operand2: Operands, cycles: i32, untaken: i32) -> (r:
    Entry)
    ensures
        r == branching(group, operand1, operand2, cycles, untaken),
{
    Entry { group, operand1, operand2, cycles, untaken }
}

fn register_of(code: u8) -> (r: Operands)
    ensures
        r == register_code(code as int),
{
    if code == 0 {
        Operands::B
    } else if code == 1 {
        Operands::C
    } else if code == 2 {
        Operands::D
    } else if code == 3 {
        Operands::E
    } else if code == 4 {
        Operands::H
    } else if code == 5 {
        Operands::L
    } else if code == 6 {
        Operands::AddrHL
    } else {
        Operands::A
    }
}

fn wide_of(code: u8) -> (r: Operands)
    ensures
        r == wide_code(code as int),
{
    if code == 0 {
        Operands::BC
    } else if code == 1 {
        Operands::DE
    } else if code == 2 {
        Operands::HL
    } else {
        Operands::SP
    }
}

fn stacked_of(code: u8) -> (r: Operands)
    ensures
        r == stacked_code(code as int),
{
    if code == 0 {
        Operands::BC
    } else if code == 1 {
        Operands::DE
    } else if code == 2 {
        Operands::HL
    } else {
        Operands::AF
    }
}

fn indirect_of(code: u8) -> (r: Operands)
    ensures
        r == indirect_code(code as int),
{
    if code == 0 {
        Operands::AddrBC
    } else if code == 1 {
        Operands::AddrDE
    } else if code == 2 {
        Operands::AddrHLI
    } else {
        Operands::AddrHLD
    }
}

fn condition_of(code: u8) -> (r: Operands)
    ensures
        r == condition_code(code as int),
{
    if code == 0 {
        Operands::JR_NZ
    } else if code == 1 {
        Operands::JR_Z
    } else if code == 2 {
        Operands::JR_NC
    } else {
        Operands::JR_C
    }
}

fn restart_of(code: u8) -> (r: Operands)
    ensures
        r == restart_code(code as int),
{
    if code == 0 {
        Operands::H00
    } else if code == 1 {
        Operands::H08
    } else if code == 2 {
        Operands::H10
    } else if code == 3 {
        Operands::H18
    } else if code == 4 {
        Operands::H20
    } else if code == 5 {
        Operands::H28
    } else if code == 6 {
        Operands::H30
    } else {
        Operands::H38
    }
}

fn accumulator_of(code: u8) -> (r: InstGroup)
    ensures
        r == accumulator_code(code as int),
{
    if code == 0 {
        InstGroup::Rlca
    } else if code == 1 {
        InstGroup::Rrca
    } else if code == 2 {
        InstGroup::Rla
    } else if code == 3 {
        InstGroup::Rra
    } else if code == 4 {
        InstGroup::Daa
    } else if code == 5 {
        InstGroup::Cpl
    } else if code == 6 {
        InstGroup::Scf
    } else {
        InstGroup::Ccf
    }
}

fn shift_of(code: u8) -> (r: InstGroup)
    ensures
        r == shift_code(code as int),
{
    if code == 0 {
        InstGroup::Rlc
    } else if code == 1 {
        InstGroup::Rrc
    } else if code == 2 {
        InstGroup::Rl
    } else if code == 3 {
        InstGroup::Rr
    } else if code == 4 {
        InstGroup::Sla
    } else if code == 5 {
        InstGroup::Sra
    } else if code == 6 {
        InstGroup::Swap
    } else {
        InstGroup::Srl
    }
}

fn arithmetic_of(code: u8, operand: Operands, cycles: i32) -> (r: Entry)
    ensures
        r == arithmetic_code(code as int, operand, cycles),
{
    if code == 0 {
        binary_entry(InstGroup::Add8, Operands::A, operand, cycles)
    } else if code == 1 {
        binary_entry(InstGroup::Adc, Operands::A, operand, cycles)
    } else if code == 2 {
        unary_entry(InstGroup::Sub, operand, cycles)
    } else if code == 3 {
        binary_entry(InstGroup::Sbc, Operands::A, operand, cycles)
    } else if code == 4 {
        unary_entry(InstGroup::And, operand, cycles)
    } else if code == 5 {
        unary_entry(InstGroup::Xor, operand, cycles)
    } else if code == 6 {
        unary_entry(InstGroup::Or, operand, cycles)
    } else {
        unary_entry(InstGroup::Cp, operand, cycles)
    }
}

/// Looks the opcode `byte` up in the table of one-byte opcodes.
pub fn decode(byte: u8) -> (r: Option<Entry>)
    ensures
        r == base_entry(byte),
{
    proof {
        reveal(base_entry);
    }
    let x: u8 = byte / 64;
    let y: u8 = byte / 8 % 8;
    let z: u8 = byte % 8;
    let p: u8 = y / 2;
    let q: u8 = y % 2;
    if x == 0 {
        if z == 0 {
            if y == 0 {
                Some(plain_entry(InstGroup::Nop, 4))
            } else if y == 1 {
                Some(binary_entry(InstGroup::Load16, Operands::AddrU16, Operands::SP, 20))
            } else if y == 2 {
                Some(plain_entry(InstGroup::Stop, 4))
            } else if y == 3 {
                Some(unary_entry(InstGroup::Jr, Operands::I8, 12))
            } else {
                Some(branching_entry(InstGroup::JrCc, condition_of(y - 4), Operands::I8, 12, 8))
            }
        } else if z == 1 {
            if q == 0 {
                Some(binary_entry(InstGroup::Load16, wide_of(p), Operands::U16, 12))
            } else {
                Some(binary_entry(InstGroup::Add16, Operands::HL, wide_of(p), 8))
            }
        } else if z == 2 {
            if q == 0 {
                Some(binary_entry(InstGroup::Load8, indirect_of(p), Operands::A, 8))
            } else {
                Some(binary_entry(InstGroup::Load8, Operands::A, indirect_of(p), 8))
            }
        } else if z == 3 {
            if q == 0 {
                Some(unary_entry(InstGroup::Inc16, wide_of(p), 8))
            } else {
                Some(unary_entry(InstGroup::Dec16, wide_of(p), 8))
            }
        } else if z == 4 {
            Some(unary_entry(InstGroup::Inc8, register_of(y), if y == 6 { 12 } else { 4 }))
        } else if z == 5 {
            Some(unary_entry(InstGroup::Dec8, register_of(y), if y == 6 { 12 } else { 4 }))
        } else if z == 6 {
            Some(binary_entry(InstGroup::Load8, register_of(y), Operands::U8, if y == 6 { 12 } else { 8 }))
        } else {
            Some(plain_entry(accumulator_of(y), 4))
        }
    } else if x == 1 {
        if y == 6 && z == 6 {
            Some(plain_entry(InstGroup::Halt, 4))
        } else {
            Some(binary_entry(InstGroup::Load8, register_of(y), register_of(z), if y == 6 || z == 6 { 8 } else { 4 }))
        }
    } else if x == 2 {
        Some(arithmetic_of(y, register_of(z), if z == 6 { 8 } else { 4 }))
    } else {
        if z == 0 {
            if y < 4 {
                Some(branching_entry(InstGroup::RetCc, condition_of(y), Operands::NONE, 20, 8))
            } else if y == 4 {
                Some(binary_entry(InstGroup::Load8, Operands::AddrFF00_U8, Operands::A, 12))
            } else if y == 5 {
                Some(binary_entry(InstGroup::Add16, Operands::SP, Operands::I8, 16))
            } else if y == 6 {
                Some(binary_entry(InstGroup::Load8, Operands::A, Operands::AddrFF00_U8, 12))
            } else {
                Some(binary_entry(InstGroup::Load16, Operands::HL, Operands::SP_i8, 12))
            }
        } else if z == 1 {
            if q == 0 {
                Some(unary_entry(InstGroup::Pop, stacked_of(p), 12))
            } else if p == 0 {
                Some(plain_entry(InstGroup::Ret, 16))
            } else if p == 1 {
                Some(plain_entry(InstGroup::Reti, 16))
            } else if p == 2 {
                Some(unary_entry(InstGroup::JpHl, Operands::HL, 4))
            } else {
                Some(binary_entry(InstGroup::Load16, Operands::SP, Operands::HL, 8))
            }
        } else if z == 2 {
            if y < 4 {
                Some(branching_entry(InstGroup::JpCc, condition_of(y), Operands::U16, 16, 12))
            } else if y == 4 {
                Some(binary_entry(InstGroup::Load8, Operands::AddrFF00_C, Operands::A, 8))
            } else if y == 5 {
                Some(binary_entry(InstGroup::Load8, Operands::AddrU16, Operands::A, 16))
            } else if y == 6 {
                Some(binary_entry(InstGroup::Load8, Operands::A, Operands::AddrFF00_C, 8))
            } else {
                Some(binary_entry(InstGroup::Load8, Operands::A, Operands::AddrU16, 16))
            }
        } else if z == 3 {
            if y == 0 {
                Some(unary_entry(InstGroup::Jp, Operands::U16, 16))
            } else if y == 1 {
                Some(plain_entry(InstGroup::Prefix, 4))
            } else if y == 6 {
                Some(plain_entry(InstGroup::Di, 4))
            } else if y == 7 {
                Some(plain_entry(InstGroup::Ei, 4))
            } else {
                None
            }
        } else if z == 4 {
            if y < 4 {
                Some(branching_entry(InstGroup::CallCc, condition_of(y), Operands::U16, 24, 12))
            } else {
                None
            }
        } else if z == 5 {
            if q == 0 {
                Some(unary_entry(InstGroup::Push, stacked_of(p), 16))
            } else if p == 0 {
                Some(unary_entry(InstGroup::Call, Operands::U16, 24))
            } else {
                None
            }
        } else if z == 6 {
            Some(arithmetic_of(y, Operands::U8, 8))
        } else {
            Some(unary_entry(InstGroup::Rst, restart_of(y), 16))
        }
    }
}

/// Looks the opcode `byte` up in the table behind the prefix.
pub fn decode_prefixed(byte: u8) -> (r: Entry)
    ensures
        r == prefixed_entry(byte),
{
    proof {
        reveal(prefixed_entry);
    }
    let x: u8 = byte / 64;
    let y: u8 = byte / 8 % 8;
    let z: u8 = byte % 8;
    if x == 0 {
        unary_entry(shift_of(y), register_of(z), if z == 6 { 16 } else { 8 })
    } else if x == 1 {
        binary_entry(InstGroup::Bit, Operands::I(y), register_of(z), if z == 6 { 12 } else { 8 })
    } else if x == 2 {
        binary_entry(InstGroup::Res, Operands::I(y), register_of(z), if z == 6 { 16 } else { 8 })
    } else {
        binary_entry(InstGroup::SetBit, Operands::I(y), register_of(z), if z == 6 { 16 } else { 8 })
    }
}

fn entry_length(entry: &Entry, prefixed: bool) -> (r: usize)
    ensures
        r == instruction_length(*entry, prefixed),
{
    if prefixed {
        2
    } else {
        1 + entry.operand1.get_encoded_length() + entry.operand2.get_encoded_length()
    }
}

fn make_opcode(byte: u8, entry: Entry, prefixed: bool) -> (r: Opcode)
    ensures
        r@ == opcode_of(byte, entry, prefixed),
{
    let length = entry_length(&entry, prefixed);
    let mut cycle: Vec<i32> = Vec::new();
    cycle.push(entry.cycles);
    if matches!(entry.group, InstGroup::JpCc | InstGroup::JrCc | InstGroup::CallCc | InstGroup::RetCc) {
        cycle.push(entry.untaken);
    }
    proof {
        assert(cycle@ =~= opcode_of(byte, entry, prefixed).cycle);
    }
    let mnemonic = entry.group.mnemonic();
    match entry.operand1 {
        Operands::NONE => match entry.operand2 {
            Operands::NONE => Opcode::opcode0(entry.group, mnemonic, byte, length, cycle),
            _ => {
                let mut opcode = Opcode::opcode0(entry.group, mnemonic, byte, length, cycle);
                opcode.operand2 = Some(entry.operand2);
                opcode
            },
        },
        _ => match entry.operand2 {
            Operands::NONE => Opcode::opcode1(entry.group, mnemonic, byte, length, cycle, entry.operand1),
            _ => Opcode::opcode2(entry.group, mnemonic, byte, length, cycle, entry.operand1, entry.operand2),
        },
    }
}

/// The entry of the one-byte opcode `byte`, or the byte back if it names
/// no instruction.
pub fn get_opcode(byte: u8) -> (r: Result<Opcode, InvalidOpcode>)
    ensures
        match r {
            Ok(opcode) => base_entry(byte) matches Some(entry) && opcode@ == opcode_of(byte, entry, false),
            Err(e) => base_entry(byte) is None && e == InvalidOpcode(byte),
        },
{
    match decode(byte) {
        Some(entry) => Ok(make_opcode(byte, entry, false)),
        None => Err(InvalidOpcode(byte)),
    }
}

/// The entry of the opcode `byte` behind the prefix 0xCB.
pub fn get_prefixed_opcode(byte: u8) -> (r: Opcode)
    ensures
        r@ == opcode_of(byte, prefixed_entry(byte), true),
{
    make_opcode(byte, decode_prefixed(byte), true)
}

/// The processor and the bus after the instruction `group` has worked on
/// its operands, and whether the longer of its two timings applies: that
/// is so unless the instruction has a condition that does not hold.
#[verifier::opaque]
pub open spec fn execute_spec(cpu: Cpu, bus: BusView, group: InstGroup, operand1: Operands, operand2: Operands) -> (
    Cpu,
    BusView,
    bool,
) {
    match group {
        InstGroup::Nop | InstGroup::Stop | InstGroup::Prefix => (cpu, bus, true),
        InstGroup::Halt => (cpu.halted(bus.interrupt), bus, true),
        InstGroup::Di => (cpu, BusView { interrupt: InterruptState { ime: false, ..bus.interrupt }, ..bus }, true),
        InstGroup::Ei => (Cpu { i_enable_flag: true, ..cpu }, bus, true),
        InstGroup::Load8 => {
            let r = loads::load8_spec(cpu, bus, operand1, operand2);
            (r.0, r.1, true)
        },
        InstGroup::Load16 => {
            let r = loads::load16_spec(cpu, bus, operand1, operand2);
            (r.0, r.1, true)
        },
        InstGroup::Add8 => (alu8::add_spec(cpu, bus, operand2), bus, true),
        InstGroup::Adc => (alu8::adc_spec(cpu, bus, operand2), bus, true),
        InstGroup::Sub => (alu8::sub_spec(cpu, bus, operand1), bus, true),
        InstGroup::Sbc => (alu8::sbc_spec(cpu, bus, operand2), bus, true),
        InstGroup::And => (alu8::and_spec(cpu, bus, operand1), bus, true),
        InstGroup::Xor => (alu8::xor_spec(cpu, bus, operand1), bus, true),
        InstGroup::Or => (alu8::or_spec(cpu, bus, operand1), bus, true),
        InstGroup::Cp => (alu8::cp_spec(cpu, bus, operand1), bus, true),
        InstGroup::Inc8 => {
            let r = alu8::inc_spec(cpu, bus, operand1);
            (r.0, r.1, true)
        },
        InstGroup::Dec8 => {
            let r = alu8::dec_spec(cpu, bus, operand1);
            (r.0, r.1, true)
        },
        InstGroup::Add16 => (alu16::add_spec(cpu, bus, operand1, operand2), bus, true),
        InstGroup::Inc16 => (alu16::inc_spec(cpu, operand1), bus, true),
        InstGroup::Dec16 => (alu16::dec_spec(cpu, operand1), bus, true),
        InstGroup::Daa => (alu8::daa_spec(cpu), bus, true),
        InstGroup::Cpl => (alu8::cpl_spec(cpu), bus, true),
        InstGroup::Scf => (alu8::scf_spec(cpu), bus, true),
        InstGroup::Ccf => (alu8::ccf_spec(cpu), bus, true),
        InstGroup::Rlca => (rotates::rlca_spec(cpu), bus, true),
        InstGroup::Rla => (rotates::rla_spec(cpu), bus, true),
        InstGroup::Rrca => (rotates::rrca_spec(cpu), bus, true),
        InstGroup::Rra => (rotates::rra_spec(cpu), bus, true),
        InstGroup::Rlc => {
            let r = rotates::rlc_spec(cpu, bus, operand1);
            (r.0, r.1, true)
        },
        InstGroup::Rrc => {
            let r = rotates::rrc_spec(cpu, bus, operand1);
            (r.0, r.1, true)
        },
        InstGroup::Rl => {
            let r = rotates::rl_spec(cpu, bus, operand1);
            (r.0, r.1, true)
        },
        InstGroup::Rr => {
            let r = rotates::rr_spec(cpu, bus, operand1);
            (r.0, r.1, true)
        },
        InstGroup::Sla => {
            let r = rotates::sla_spec(cpu, bus, operand1);
            (r.0, r.1, true)
        },
        InstGroup::Sra => {
            let r = rotates::sra_spec(cpu, bus, operand1);
            (r.0, r.1, true)
        },
        InstGroup::Swap => {
            let r = misc::swap_spec(cpu, bus, operand1);
            (r.0, r.1, true)
        },
        InstGroup::Srl => {
            let r = rotates::srl_spec(cpu, bus, operand1);
            (r.0, r.1, true)
        },
        InstGroup::Bit => (bits::bit_spec(cpu, bus, operand1, operand2), bus, true),
        InstGroup::Res => {
            let r = bits::res_spec(cpu, bus, operand1, operand2);
            (r.0, r.1, true)
        },
        InstGroup::SetBit => {
            let r = bits::set_spec(cpu, bus, operand1, operand2);
            (r.0, r.1, true)
        },
        InstGroup::Jp => (jumps::jpnn_spec(cpu, bus), bus, true),
        InstGroup::JpHl => (jumps::jphl_spec(cpu), bus, true),
        InstGroup::JpCc => (jumps::jpccnn_spec(cpu, bus, operand1), bus, cpu.condition(operand1)),
        InstGroup::Jr => (jumps::jr_spec(cpu, bus), bus, true),
        InstGroup::JrCc => (jumps::jrccn_spec(cpu, bus, operand1), bus, cpu.condition(operand1)),
        InstGroup::Call => {
            let r = stack::call_spec(cpu, bus);
            (r.0, r.1, true)
        },
        InstGroup::CallCc => {
            let r = stack::call_cc_spec(cpu, bus, operand1);
            (r.0, r.1, cpu.condition(operand1))
        },
        InstGroup::Ret => (stack::ret_spec(cpu, bus), bus, true),
        InstGroup::RetCc => (stack::ret_cc_spec(cpu, bus, operand1), bus, cpu.condition(operand1)),
        InstGroup::Reti => {
            let r = stack::reti_spec(cpu, bus);
            (r.0, r.1, true)
        },
        InstGroup::Rst => {
            let r = stack::rst_spec(cpu, bus, operand1);
            (r.0, r.1, true)
        },
        InstGroup::Push => {
            let r = stack::push_spec(cpu, bus, operand1);
            (r.0, r.1, true)
        },
        InstGroup::Pop => (stack::pop_spec(cpu, bus, operand1), bus, true),
    }
}

/// What the instruction of the entry `opcode` costs, given which of its
/// timings applies.
pub open spec fn cost(opcode: OpcodeView, taken: bool) -> i32 {
    if opcode.group.is_conditional() && !taken {
        opcode.cycle[1]
    } else {
        opcode.cycle[0]
    }
}

fn operand_in(slot_value: &Option<Operands>) -> (r: Operands)
    ensures
        r == slot(*slot_value),
{
    match slot_value {
        Some(operand) => *operand,
        None => Operands::NONE,
    }
}

/// Executes the instructions that move or compute bytes and words.
#[verifier::rlimit(50)]
fn execute_data(cpu: &mut Cpu, bus: &mut Bus, group: InstGroup, operand1: Operands, operand2: Operands)
    requires
        old(bus)@.wf(),
        group.fits(operand1, operand2),
        group is Load8 || group is Load16 || group is Add8 || group is Adc || group is Sub || group is Sbc
            || group is And || group is Xor || group is Or || group is Cp || group is Inc8 || group is Dec8
            || group is Add16 || group is Inc16 || group is Dec16 || group is Daa || group is Cpl
            || group is Scf || group is Ccf,
    ensures
        (*final(cpu), final(bus)@, true) == execute_spec(*old(cpu), old(bus)@, group, operand1, operand2),
        final(bus)@.wf(),
{
    proof {
        reveal(execute_spec);
    }
    match group {
        InstGroup::Load8 => loads::load8(cpu, bus, operand1, operand2),
        InstGroup::Load16 => loads::load16(cpu, bus, operand1, operand2),
        InstGroup::Add8 => alu8::add(cpu, bus, operand1, operand2),
        InstGroup::Adc => alu8::adc(cpu, bus, operand1, operand2),
        InstGroup::Sub => alu8::sub(cpu, bus, operand1),
        InstGroup::Sbc => alu8::sbc(cpu, bus, operand1, operand2),
        InstGroup::And => alu8::and(cpu, bus, operand1),
        InstGroup::Xor => alu8::xor(cpu, bus, operand1),
        InstGroup::Or => alu8::or(cpu, bus, operand1),
        InstGroup::Cp => alu8::cp(cpu, bus, operand1),
        InstGroup::Inc8 => alu8::inc(cpu, bus, operand1),
        InstGroup::Dec8 => alu8::dec(cpu, bus, operand1),
        InstGroup::Add16 => alu16::add(cpu, bus, operand1, operand2),
        InstGroup::Inc16 => alu16::inc(cpu, bus, operand1),
        InstGroup::Dec16 => alu16::dec(cpu, bus, operand1),
        InstGroup::Daa => alu8::daa(cpu),
        InstGroup::Cpl => alu8::cpl(cpu),
        InstGroup::Scf => alu8::scf(cpu),
        _ => alu8::ccf(cpu),
    }
}

/// Executes the rotations, the shifts and the instructions on single bits.
#[verifier::rlimit(50)]
fn execute_bits(cpu: &mut Cpu, bus: &mut Bus, group: InstGroup, operand1: Operands, operand2: Operands)
    requires
        old(bus)@.wf(),
        group.fits(operand1, operand2),
        group is Rlca || group is Rla || group is Rrca || group is Rra || group is Rlc || group is Rrc
            || group is Rl || group is Rr || group is Sla || group is Sra || group is Swap || group is Srl
            || group is Bit || group is Res || group is SetBit,
    ensures
        (*final(cpu), final(bus)@, true) == execute_spec(*old(cpu), old(bus)@, group, operand1, operand2),
        final(bus)@.wf(),
{
    proof {
        reveal(execute_spec);
    }
    match group {
        InstGroup::Rlca => rotates::rlca(cpu),
        InstGroup::Rla => rotates::rla(cpu),
        InstGroup::Rrca => rotates::rrca(cpu),
        InstGroup::Rra => rotates::rra(cpu),
        InstGroup::Rlc => rotates::rlc(cpu, bus, operand1),
        InstGroup::Rrc => rotates::rrc(cpu, bus, operand1),
        InstGroup::Rl => rotates::rl(cpu, bus, operand1),
        InstGroup::Rr => rotates::rr(cpu, bus, operand1),
        InstGroup::Sla => rotates::sla(cpu, bus, operand1),
        InstGroup::Sra => rotates::sra(cpu, bus, operand1),
        InstGroup::Swap => misc::swap(cpu, bus, operand1),
        InstGroup::Srl => rotates::srl(cpu, bus, operand1),
        InstGroup::Bit => bits::bit(cpu, bus, operand1, operand2),
        InstGroup::Res => bits::res(cpu, bus, operand1, operand2),
        _ => bits::set(cpu, bus, operand1, operand2),
    }
}

/// Executes the jumps and the instructions that do nothing to the
/// registers.
#[verifier::rlimit(50)]
fn execute_jump(cpu: &mut Cpu, bus: &mut Bus, group: InstGroup, operand1: Operands, operand2: Operands) -> (taken:
    bool)
    requires
        old(bus)@.wf(),
        group.fits(operand1, operand2),
        group is Nop || group is Stop || group is Prefix || group is Halt || group is Di || group is Ei
            || group is Jp || group is JpHl || group is JpCc || group is Jr || group is JrCc,
    ensures
        (*final(cpu), final(bus)@, taken) == execute_spec(*old(cpu), old(bus)@, group, operand1, operand2),
        final(bus)@.wf(),
{
    proof {
        reveal(execute_spec);
    }
    match group {
        InstGroup::Halt => {
            cpu.halt(&bus.interrupt);
            true
        },
        InstGroup::Di => {
            interrupts::di(&mut bus.interrupt);
            true
        },
        InstGroup::Ei => {
            interrupts::ei(cpu);
            true
        },
        InstGroup::Jp => {
            jumps::jpnn(cpu, bus);
            true
        },
        InstGroup::JpHl => {
            let _ = jumps::jphl(cpu, bus);
            true
        },
        InstGroup::JpCc => jumps::jpccnn(cpu, bus, operand1, operand2),
        InstGroup::Jr => {
            jumps::jr(cpu, bus);
            true
        },
        InstGroup::JrCc => jumps::jrccn(cpu, bus, operand1, operand2),
        _ => true,
    }
}

/// Executes the calls, the returns and the instructions on the stack.
#[verifier::rlimit(50)]
fn execute_stack(cpu: &mut Cpu, bus: &mut Bus, group: InstGroup, operand1: Operands, operand2: Operands) -> (taken:
    bool)
    requires
        old(bus)@.wf(),
        group.fits(operand1, operand2),
        group is Call || group is CallCc || group is Ret || group is RetCc || group is Reti || group is Rst
            || group is Push || group is Pop,
    ensures
        (*final(cpu), final(bus)@, taken) == execute_spec(*old(cpu), old(bus)@, group, operand1, operand2),
        final(bus)@.wf(),
{
    proof {
        reveal(execute_spec);
    }
    match group {
        InstGroup::Call => {
            stack::call(cpu, bus);
            true
        },
        InstGroup::CallCc => stack::call_cc(cpu, bus, operand1),
        InstGroup::Ret => {
            stack::ret(cpu, bus);
            true
        },
        InstGroup::RetCc => stack::ret_cc(cpu, bus, operand1),
        InstGroup::Reti => {
            let _ = stack::reti(cpu, bus);
            true
        },
        InstGroup::Rst => {
            let _ = stack::rst(cpu, bus, operand1);
            true
        },
        InstGroup::Push => {
            stack::push(cpu, bus, operand1);
            true
        },
        _ => {
            stack::pop(cpu, bus, operand1);
            true
        },
    }
}

/// Executes the instruction of the entry `opcode` and returns what it cost
/// in T-cycles.
pub fn execute_opcode(cpu: &mut Cpu, bus: &mut Bus, opcode: &Opcode) -> (cycles: i32)
    requires
        old(bus)@.wf(),
        opcode@.wf(),
    ensures
        ({
            let done = execute_spec(
                *old(cpu),
                old(bus)@,
                opcode.group,
                slot(opcode.operand1),
                slot(opcode.operand2),
            );
            &&& *final(cpu) == done.0
            &&& final(bus)@ == done.1
            &&& cycles == cost(opcode@, done.2)
        }),
        final(bus)@.wf(),
{
    let operand1 = operand_in(&opcode.operand1);
    let operand2 = operand_in(&opcode.operand2);
    let taken = match opcode.group {
        InstGroup::Load8
        | InstGroup::Load16
        | InstGroup::Add8
        | InstGroup::Adc
        | InstGroup::Sub
        | InstGroup::Sbc
        | InstGroup::And
        | InstGroup::Xor
        | InstGroup::Or
        | InstGroup::Cp
        | InstGroup::Inc8
        | InstGroup::Dec8
        | InstGroup::Add16
        | InstGroup::Inc16
        | InstGroup::Dec16
        | InstGroup::Daa
        | InstGroup::Cpl
        | InstGroup::Scf
        | InstGroup::Ccf => {
            execute_data(cpu, bus, opcode.group, operand1, operand2);
            true
        },
        InstGroup::Rlca
        | InstGroup::Rla
        | InstGroup::Rrca
        | InstGroup::Rra
        | InstGroup::Rlc
        | InstGroup::Rrc
        | InstGroup::Rl
        | InstGroup::Rr
        | InstGroup::Sla
        | InstGroup::Sra
        | InstGroup::Swap
        | InstGroup::Srl
        | InstGroup::Bit
        | InstGroup::Res
        | InstGroup::SetBit => {
            execute_bits(cpu, bus, opcode.group, operand1, operand2);
            true
        },
        InstGroup::Call
        | InstGroup::CallCc
        | InstGroup::Ret
        | InstGroup::RetCc
        | InstGroup::Reti
        | InstGroup::Rst
        | InstGroup::Push
        | InstGroup::Pop => execute_stack(cpu, bus, opcode.group, operand1, operand2),
        _ => execute_jump(cpu, bus, opcode.group, operand1, operand2),
    };
    let conditional = matches!(
        opcode.group,
        InstGroup::JpCc | InstGroup::JrCc | InstGroup::CallCc | InstGroup::RetCc
    );
    if conditional && !taken {
        opcode.cycle[1]
    } else {
        opcode.cycle[0]
    }
}

/// Every entry of the two tables can be executed, takes one to three
/// bytes, namely its opcode, its prefix if it has one and what its operands
/// take behind them, and costs between 4 and 24 T-cycles, a multiple of
/// four.
pub proof fn lemma_tables_are_sound(byte: u8)
    ensures
        base_entry(byte) matches Some(entry) ==> entry_is_sound(opcode_of(byte, entry, false)) && opcode_of(
            byte,
            entry,
            false,
        ).length == 1 + entry.operand1.encoded_length() + entry.operand2.encoded_length() && slot(
            in_slot(entry.operand1),
        ) == entry.operand1 && slot(in_slot(entry.operand2)) == entry.operand2,
        entry_is_sound(opcode_of(byte, prefixed_entry(byte), true)),
        opcode_of(byte, prefixed_entry(byte), true).length == 2,
        prefixed_entry(byte).operand1.encoded_length() + prefixed_entry(byte).operand2.encoded_length() == 0,
        slot(in_slot(prefixed_entry(byte).operand1)) == prefixed_entry(byte).operand1,
        slot(in_slot(prefixed_entry(byte).operand2)) == prefixed_entry(byte).operand2,
{
    reveal(base_entry);
    reveal(prefixed_entry);
}

/// What holds of every entry of the tables.
pub open spec fn entry_is_sound(opcode: OpcodeView) -> bool {
    &&& opcode.wf()
    &&& 1 <= opcode.length <= 3
    &&& forall|i: int|
        0 <= i < opcode.cycle.len() ==> 4 <= #[trigger] opcode.cycle[i] <= 24 && opcode.cycle[i] % 4 == 0
}

/// The bytes that name no instruction.
pub open spec fn is_illegal(byte: u8) -> bool {
    byte == 0xD3 || byte == 0xDB || byte == 0xDD || byte == 0xE3 || byte == 0xE4 || byte == 0xEB || byte == 0xEC
        || byte == 0xED || byte == 0xF4 || byte == 0xFC || byte == 0xFD
}

/// The table of one-byte opcodes leaves out exactly the eleven bytes that
/// name no instruction, holds the prefix at 0xCB and HALT at 0x76 amid the
/// loads between registers, which fill the rest of 0x40 to 0x7F, and holds
/// the arithmetic on the accumulator from 0x80 to 0xBF.
pub proof fn lemma_shape_of_the_table(byte: u8)
    ensures
        base_entry(byte) is None <==> is_illegal(byte),
        base_entry(byte) matches Some(entry) ==> (entry.group is Prefix <==> byte == 0xCB) && (entry.group is Halt
            <==> byte == 0x76) && (entry.group is Nop <==> byte == 0x00) && (entry.group is Stop <==> byte
            == 0x10),
        0x40 <= byte <= 0x7F && byte != 0x76 ==> base_entry(byte) == Some(
            binary(
                InstGroup::Load8,
                register_code((byte - 0x40) / 8),
                register_code(byte as int % 8),
                if (byte - 0x40) / 8 == 6 || byte % 8 == 6 {
                    8
                } else {
                    4
                },
            ),
        ),
        0x80 <= byte <= 0xBF ==> base_entry(byte) == Some(
            arithmetic_code((byte - 0x80) / 8, register_code(byte as int % 8), if byte % 8 == 6 { 8 } else { 4 }),
        ),
        base_entry(byte) matches Some(entry) ==> (entry.group.is_conditional() <==> entry.cycles
            != entry.untaken),
{
    reveal(base_entry);
}

} // verus!
