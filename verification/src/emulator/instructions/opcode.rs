use vstd::prelude::*;
use vstd::string::*;
use super::inst_group::InstGroup;
use super::operand::Operands;

verus! {

/// One entry of the decoding tables: what the instruction is called, how
/// long it is in bytes, what it costs in T-cycles (for an instruction with
/// a condition, first if the condition holds, then if it does not), what
/// it works on and what it does.
pub struct Opcode {
    pub opcode_byte: u8,
    pub length: usize,
    pub cycle: Vec<i32>,
    pub mnemonic: String,
    pub operand1: Option<Operands>,
    pub operand2: Option<Operands>,
    pub group: InstGroup,
}

pub struct OpcodeView {
    pub opcode_byte: u8,
    pub length: nat,
    pub cycle: Seq<i32>,
    pub mnemonic: Seq<char>,
    pub operand1: Option<Operands>,
    pub operand2: Option<Operands>,
    pub group: InstGroup,
}

impl View for Opcode {
    type V = OpcodeView;

    open spec fn view(&self) -> OpcodeView {
        OpcodeView {
            opcode_byte: self.opcode_byte,
            length: self.length as nat,
            cycle: self.cycle@,
            mnemonic: self.mnemonic@,
            operand1: self.operand1,
            operand2: self.operand2,
            group: self.group,
        }
    }
}

/// The operand that stands in a slot of an entry; an empty slot holds the
/// absent operand.
pub open spec fn slot(operand: Option<Operands>) -> Operands {
    match operand {
        Some(o) => o,
        None => Operands::NONE,
    }
}

impl OpcodeView {
    /// The entry can be executed: its operands are such as its instruction
    /// works on, and it has a cost for each way the instruction can go.
    pub open spec fn wf(self) -> bool {
        &&& self.group.fits(slot(self.operand1), slot(self.operand2))
        &&& self.cycle.len() >= 1
        &&& (self.group.is_conditional() ==> self.cycle.len() >= 2)
    }
}

impl Opcode {
    /// Does nothing: an entry is a record of the tables, and what executes
    /// it is `execute_opcode`, which needs the processor and the bus.
    pub fn execute(&self) {
    }

    pub fn opcode0(group: InstGroup, mnemonic: &str, opcode_byte: u8, length: usize, cycle: Vec<i32>) -> (r:
        Self)
        ensures
            r@ == (OpcodeView {
                group,
                opcode_byte,
                length: length as nat,
                cycle: cycle@,
                mnemonic: mnemonic@,
                operand1: None,
                operand2: None,
            }),
    {
        Opcode {
            group,
            opcode_byte,
            length,
            cycle,
            mnemonic: String::from_str(mnemonic),
            operand1: None,
            operand2: None,
        }
    }

    pub fn opcode1(
        group: InstGroup,
        mnemonic: &str,
        opcode_byte: u8,
        length: usize,
        cycle: Vec<i32>,
        operand1: Operands,
    ) -> (r: Self)
        ensures
            r@ == (OpcodeView {
                group,
                opcode_byte,
                length: length as nat,
                cycle: cycle@,
                mnemonic: mnemonic@,
                operand1: Some(operand1),
                operand2: None,
            }),
    {
        Opcode {
            group,
            opcode_byte,
            length,
            cycle,
            mnemonic: String::from_str(mnemonic),
            operand1: Some(operand1),
            operand2: None,
        }
    }

    pub fn opcode2(
        group: InstGroup,
        mnemonic: &str,
        opcode_byte: u8,
        length: usize,
        cycle: Vec<i32>,
        operand1: Operands,
        operand2: Operands,
    ) -> (r: Self)
        ensures
            r@ == (OpcodeView {
                group,
                opcode_byte,
                length: length as nat,
                cycle: cycle@,
                mnemonic: mnemonic@,
                operand1: Some(operand1),
                operand2: Some(operand2),
            }),
    {
        Opcode {
            group,
            opcode_byte,
            length,
            cycle,
            mnemonic: String::from_str(mnemonic),
            operand1: Some(operand1),
            operand2: Some(operand2),
        }
    }
}

} // verus!
