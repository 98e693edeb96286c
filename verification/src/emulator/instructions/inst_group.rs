use vstd::prelude::*;
use super::alu16::add_operands;
use super::loads::{is_wide_source, is_wide_target};
use super::operand::Operands;

verus! {

/// What an instruction does, apart from what it does it to.
#[derive(Debug, Clone, Copy, PartialEq, Eq, Structural)]
pub enum InstGroup {
    Nop,
    Stop,
    Halt,
    Prefix,
    Di,
    Ei,
    Load8,
    Load16,
    Add8,
    Adc,
    Sub,
    Sbc,
    And,
    Xor,
    Or,
    Cp,
    Inc8,
    Dec8,
    Add16,
    Inc16,
    Dec16,
    Daa,
    Cpl,
    Scf,
    Ccf,
    Rlca,
    Rla,
    Rrca,
    Rra,
    Rlc,
    Rrc,
    Rl,
    Rr,
    Sla,
    Sra,
    Swap,
    Srl,
    Bit,
    Res,
    SetBit,
    Jp,
    JpHl,
    JpCc,
    Jr,
    JrCc,
    Call,
    CallCc,
    Ret,
    RetCc,
    Reti,
    Rst,
    Push,
    Pop,
}

impl InstGroup {
    /// Whether the instruction has two timings, one for each way its
    /// condition can turn out.
    pub open spec fn is_conditional(self) -> bool {
        self is JpCc || self is JrCc || self is CallCc || self is RetCc
    }

    /// Whether the operands are such as the instruction is written with:
    /// each is of a kind that the instruction can work on, a slot that the
    /// instruction does not use holds the absent operand, and the
    /// arithmetic that can take a carry names the accumulator first.
    pub open spec fn fits(self, operand1: Operands, operand2: Operands) -> bool {
        match self {
            InstGroup::Load8 => operand1.is_load_target() && operand2.is_load_source(),
            InstGroup::Load16 => is_wide_target(operand1) && is_wide_source(operand2),
            InstGroup::Add8 | InstGroup::Adc | InstGroup::Sbc => operand1 is A && operand2.is_byte_source(),
            InstGroup::Sub | InstGroup::And | InstGroup::Xor | InstGroup::Or | InstGroup::Cp => operand1.is_byte_source()
                && operand2 is NONE,
            InstGroup::Inc8
            | InstGroup::Dec8
            | InstGroup::Rlc
            | InstGroup::Rrc
            | InstGroup::Rl
            | InstGroup::Rr
            | InstGroup::Sla
            | InstGroup::Sra
            | InstGroup::Swap
            | InstGroup::Srl => operand1.is_register_or_hl() && operand2 is NONE,
            InstGroup::Add16 => add_operands(operand1, operand2),
            InstGroup::Inc16 | InstGroup::Dec16 => operand1.is_wide_register() && operand2 is NONE,
            InstGroup::Bit | InstGroup::Res | InstGroup::SetBit => operand1.is_bit_number()
                && operand2.is_register_or_hl(),
            InstGroup::Jp | InstGroup::Call => operand1 is U16 && operand2 is NONE,
            InstGroup::Jr => operand1 is I8 && operand2 is NONE,
            InstGroup::JpHl => operand1 is HL && operand2 is NONE,
            InstGroup::JpCc | InstGroup::CallCc => operand1.is_condition() && operand2 is U16,
            InstGroup::JrCc => operand1.is_condition() && operand2 is I8,
            InstGroup::RetCc => operand1.is_condition() && operand2 is NONE,
            InstGroup::Rst => operand1.is_restart() && operand2 is NONE,
            InstGroup::Push | InstGroup::Pop => operand1.is_stack_pair() && operand2 is NONE,
            _ => operand1 is NONE && operand2 is NONE,
        }
    }

    /// Whether the instruction can set the program counter to something
    /// other than the address behind it.
    pub open spec fn is_jump(self) -> bool {
        self is Jp || self is JpHl || self is JpCc || self is Jr || self is JrCc || self is Call
            || self is CallCc || self is Ret || self is RetCc || self is Reti || self is Rst
    }

    /// The name under which the instruction is written.
    pub open spec fn name(self) -> Seq<char> {
        match self {
            InstGroup::Nop => "NOP"@,
            InstGroup::Stop => "STOP"@,
            InstGroup::Halt => "HALT"@,
            InstGroup::Prefix => "PREFIX"@,
            InstGroup::Di => "DI"@,
            InstGroup::Ei => "EI"@,
            InstGroup::Load8 | InstGroup::Load16 => "LD"@,
            InstGroup::Add8 | InstGroup::Add16 => "ADD"@,
            InstGroup::Adc => "ADC"@,
            InstGroup::Sub => "SUB"@,
            InstGroup::Sbc => "SBC"@,
            InstGroup::And => "AND"@,
            InstGroup::Xor => "XOR"@,
            InstGroup::Or => "OR"@,
            InstGroup::Cp => "CP"@,
            InstGroup::Inc8 | InstGroup::Inc16 => "INC"@,
            InstGroup::Dec8 | InstGroup::Dec16 => "DEC"@,
            InstGroup::Daa => "DAA"@,
            InstGroup::Cpl => "CPL"@,
            InstGroup::Scf => "SCF"@,
            InstGroup::Ccf => "CCF"@,
            InstGroup::Rlca => "RLCA"@,
            InstGroup::Rla => "RLA"@,
            InstGroup::Rrca => "RRCA"@,
            InstGroup::Rra => "RRA"@,
            InstGroup::Rlc => "RLC"@,
            InstGroup::Rrc => "RRC"@,
            InstGroup::Rl => "RL"@,
            InstGroup::Rr => "RR"@,
            InstGroup::Sla => "SLA"@,
            InstGroup::Sra => "SRA"@,
            InstGroup::Swap => "SWAP"@,
            InstGroup::Srl => "SRL"@,
            InstGroup::Bit => "BIT"@,
            InstGroup::Res => "RES"@,
            InstGroup::SetBit => "SET"@,
            InstGroup::Jp | InstGroup::JpHl | InstGroup::JpCc => "JP"@,
            InstGroup::Jr | InstGroup::JrCc => "JR"@,
            InstGroup::Call | InstGroup::CallCc => "CALL"@,
            InstGroup::Ret | InstGroup::RetCc => "RET"@,
            InstGroup::Reti => "RETI"@,
            InstGroup::Rst => "RST"@,
            InstGroup::Push => "PUSH"@,
            InstGroup::Pop => "POP"@,
        }
    }

    pub fn mnemonic(&self) -> (r: &'static str)
        ensures
            r@ == self.name(),
    {
        match self {
            InstGroup::Nop => "NOP",
            InstGroup::Stop => "STOP",
            InstGroup::Halt => "HALT",
            InstGroup::Prefix => "PREFIX",
            InstGroup::Di => "DI",
            InstGroup::Ei => "EI",
            InstGroup::Load8 | InstGroup::Load16 => "LD",
            InstGroup::Add8 | InstGroup::Add16 => "ADD",
            InstGroup::Adc => "ADC",
            InstGroup::Sub => "SUB",
            InstGroup::Sbc => "SBC",
            InstGroup::And => "AND",
            InstGroup::Xor => "XOR",
            InstGroup::Or => "OR",
            InstGroup::Cp => "CP",
            InstGroup::Inc8 | InstGroup::Inc16 => "INC",
            InstGroup::Dec8 | InstGroup::Dec16 => "DEC",
            InstGroup::Daa => "DAA",
            InstGroup::Cpl => "CPL",
            InstGroup::Scf => "SCF",
            InstGroup::Ccf => "CCF",
            InstGroup::Rlca => "RLCA",
            InstGroup::Rla => "RLA",
            InstGroup::Rrca => "RRCA",
            InstGroup::Rra => "RRA",
            InstGroup::Rlc => "RLC",
            InstGroup::Rrc => "RRC",
            InstGroup::Rl => "RL",
            InstGroup::Rr => "RR",
            InstGroup::Sla => "SLA",
            InstGroup::Sra => "SRA",
            InstGroup::Swap => "SWAP",
            InstGroup::Srl => "SRL",
            InstGroup::Bit => "BIT",
            InstGroup::Res => "RES",
            InstGroup::SetBit => "SET",
            InstGroup::Jp | InstGroup::JpHl | InstGroup::JpCc => "JP",
            InstGroup::Jr | InstGroup::JrCc => "JR",
            InstGroup::Call | InstGroup::CallCc => "CALL",
            InstGroup::Ret | InstGroup::RetCc => "RET",
            InstGroup::Reti => "RETI",
            InstGroup::Rst => "RST",
            InstGroup::Push => "PUSH",
            InstGroup::Pop => "POP",
        }
    }
}

} // verus!
