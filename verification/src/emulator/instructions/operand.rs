use vstd::prelude::*;
use vstd::string::*;
use crate::emulator::text::{decimal, hex_byte, hex_word, push_decimal, push_hex_byte, push_hex_word};

verus! {

/// What an instruction works on: a register, a register pair, a place in
/// memory, a value that follows the opcode, a condition, a restart vector
/// or a bit number.
#[allow(non_camel_case_types)]
#[derive(Debug, Clone, Copy, PartialEq, Eq, Structural)]
pub enum Operands {
    NONE,
    A,
    F,
    B,
    C,
    D,
    E,
    H,
    L,
    AF,
    BC,
    DE,
    HL,
    SP,
    AddrBC,
    AddrHL,
    AddrHLI,
    AddrHLD,
    AddrDE,
    AddrFF00_C,
    AddrFF00_U8,
    AddrU16,
    SP_i8,
    JR_Z,
    JR_NZ,
    JR_C,
    JR_NC,
    H28,
    H00,
    H08,
    H20,
    H18,
    H38,
    H30,
    H10,
    U8,
    I8,
    U16,
    I(u8),
}

impl Operands {
    /// One of the seven general registers.
    pub open spec fn is_register(self) -> bool {
        self is A || self is B || self is C || self is D || self is E || self is H || self is L
    }

    /// A general register, or the byte that HL points at.
    pub open spec fn is_register_or_hl(self) -> bool {
        self.is_register() || self is AddrHL
    }

    /// What the arithmetic of the accumulator takes as its second operand:
    /// a general register, the byte that HL points at, or the byte that
    /// follows the opcode.
    pub open spec fn is_byte_source(self) -> bool {
        self.is_register_or_hl() || self is U8
    }

    /// A place in memory that an eight-bit load reads or writes.
    pub open spec fn is_address(self) -> bool {
        self is AddrBC || self is AddrHL || self is AddrHLI || self is AddrHLD || self is AddrDE
            || self is AddrFF00_C || self is AddrFF00_U8 || self is AddrU16
    }

    /// What an eight-bit load can write to.
    pub open spec fn is_load_target(self) -> bool {
        self.is_register() || self is F || self.is_address()
    }

    /// What an eight-bit load can read from.
    pub open spec fn is_load_source(self) -> bool {
        self.is_load_target() || self is U8
    }

    /// One of the register pairs BC, DE, HL, or the stack pointer.
    pub open spec fn is_wide_register(self) -> bool {
        self is BC || self is DE || self is HL || self is SP
    }

    /// One of the pairs that the stack instructions move.
    pub open spec fn is_stack_pair(self) -> bool {
        self is AF || self is BC || self is DE || self is HL
    }

    /// One of the four conditions on the flags.
    pub open spec fn is_condition(self) -> bool {
        self is JR_Z || self is JR_NZ || self is JR_C || self is JR_NC
    }

    /// One of the eight restart vectors.
    pub open spec fn is_restart(self) -> bool {
        self is H00 || self is H08 || self is H10 || self is H18 || self is H20 || self is H28 || self is H30
            || self is H38
    }

    /// The address that a restart vector names.
    pub open spec fn restart_address(self) -> u16 {
        match self {
            Operands::H08 => 0x08,
            Operands::H10 => 0x10,
            Operands::H18 => 0x18,
            Operands::H20 => 0x20,
            Operands::H28 => 0x28,
            Operands::H30 => 0x30,
            Operands::H38 => 0x38,
            _ => 0x00,
        }
    }

    /// A bit number from 0 to 7.
    pub open spec fn is_bit_number(self) -> bool {
        self matches Operands::I(n) && n < 8
    }

    /// Whether the operand is a value in the instruction stream.
    pub open spec fn resolvable(self) -> bool {
        self is AddrFF00_U8 || self is AddrU16 || self is SP_i8 || self is U8 || self is I8 || self is U16
    }

    /// How many bytes the operand takes behind the opcode.
    pub open spec fn encoded_length(self) -> nat {
        if self is AddrU16 || self is U16 {
            2
        } else if self.resolvable() {
            1
        } else {
            0
        }
    }

    /// How many bytes wide the value is that the operand stands for; none
    /// for the absent operand.
    pub open spec fn byte_length(self) -> nat {
        if self is NONE {
            0
        } else if self is AF || self is BC || self is DE || self is HL || self is SP || self is U16 {
            2
        } else {
            1
        }
    }

    /// How the operand is written in a listing, given the byte and the word
    /// that follow the opcode: a register by its name, a place in memory in
    /// brackets, a value behind the opcode in hexadecimal after a dollar
    /// sign, a bit number in decimal.
    pub open spec fn text(self, byte: u8, short: u16) -> Seq<char> {
        match self {
            Operands::NONE => Seq::empty(),
            Operands::A => "A"@,
            Operands::F => "F"@,
            Operands::B => "B"@,
            Operands::C => "C"@,
            Operands::D => "D"@,
            Operands::E => "E"@,
            Operands::H => "H"@,
            Operands::L => "L"@,
            Operands::AF => "AF"@,
            Operands::BC => "BC"@,
            Operands::DE => "DE"@,
            Operands::HL => "HL"@,
            Operands::SP => "SP"@,
            Operands::AddrBC => "(BC)"@,
            Operands::AddrHL => "(HL)"@,
            Operands::AddrHLI => "(HL+)"@,
            Operands::AddrHLD => "(HL-)"@,
            Operands::AddrDE => "(DE)"@,
            Operands::AddrFF00_C => "(FF00+C)"@,
            Operands::JR_Z => "Z"@,
            Operands::JR_NZ => "NZ"@,
            Operands::JR_C => "C"@,
            Operands::JR_NC => "NC"@,
            Operands::H28 => "28H"@,
            Operands::H00 => "00H"@,
            Operands::H08 => "08H"@,
            Operands::H20 => "20H"@,
            Operands::H18 => "18H"@,
            Operands::H38 => "38H"@,
            Operands::H30 => "30H"@,
            Operands::H10 => "10H"@,
            Operands::AddrFF00_U8 => "(FF00+$"@ + hex_byte(byte, false) + ")"@,
            Operands::AddrU16 => "($"@ + hex_word(short, false) + ")"@,
            Operands::SP_i8 => "SP+$"@ + hex_byte(byte, false),
            Operands::U8 | Operands::I8 => "$"@ + hex_byte(byte, false),
            Operands::U16 => "$"@ + hex_word(short, false),
            Operands::I(x) => decimal(x),
        }
    }

    pub fn is_resolvable(&self) -> (r: bool)
        ensures
            r == self.resolvable(),
    {
        matches!(
            *self,
            Operands::AddrFF00_U8 | Operands::AddrU16 | Operands::SP_i8 | Operands::U8 | Operands::I8
                | Operands::U16
        )
    }

    pub fn get_byte_length(&self) -> (r: usize)
        ensures
            r == self.byte_length(),
    {
        match *self {
            Operands::A => 1,
            Operands::F => 1,
            Operands::B => 1,
            Operands::C => 1,
            Operands::D => 1,
            Operands::E => 1,
            Operands::H => 1,
            Operands::L => 1,
            Operands::AF => 2,
            Operands::BC => 2,
            Operands::DE => 2,
            Operands::HL => 2,
            Operands::SP => 2,
            Operands::AddrBC => 1,
            Operands::AddrHL => 1,
            Operands::AddrHLI => 1,
            Operands::AddrHLD => 1,
            Operands::AddrDE => 1,
            Operands::AddrFF00_C => 1,
            Operands::AddrFF00_U8 => 1,
            Operands::AddrU16 => 1,
            Operands::SP_i8 => 1,
            Operands::JR_Z => 1,
            Operands::JR_NZ => 1,
            Operands::JR_C => 1,
            Operands::JR_NC => 1,
            Operands::H28 => 1,
            Operands::H00 => 1,
            Operands::H08 => 1,
            Operands::H20 => 1,
            Operands::H18 => 1,
            Operands::H38 => 1,
            Operands::H30 => 1,
            Operands::H10 => 1,
            Operands::U8 => 1,
            Operands::I8 => 1,
            Operands::U16 => 2,
            Operands::I(_) => 1,
            Operands::NONE => 0,
        }
    }

    /// How many bytes the operand takes behind the opcode.
    pub fn get_encoded_length(&self) -> (r: usize)
        ensures
            r == self.encoded_length(),
    {
        match *self {
            Operands::AddrU16 | Operands::U16 => 2,
            Operands::AddrFF00_U8 | Operands::SP_i8 | Operands::U8 | Operands::I8 => 1,
            _ => 0,
        }
    }

    pub fn get_str_format(&self, byte: u8, short: u16) -> (r: String)
        ensures
            r@ == self.text(byte, short),
    {
        match *self {
            Operands::NONE => String::new(),
            Operands::A => String::from_str("A"),
            Operands::F => String::from_str("F"),
            Operands::B => String::from_str("B"),
            Operands::C => String::from_str("C"),
            Operands::D => String::from_str("D"),
            Operands::E => String::from_str("E"),
            Operands::H => String::from_str("H"),
            Operands::L => String::from_str("L"),
            Operands::AF => String::from_str("AF"),
            Operands::BC => String::from_str("BC"),
            Operands::DE => String::from_str("DE"),
            Operands::HL => String::from_str("HL"),
            Operands::SP => String::from_str("SP"),
            Operands::AddrBC => String::from_str("(BC)"),
            Operands::AddrHL => String::from_str("(HL)"),
            Operands::AddrHLI => String::from_str("(HL+)"),
            Operands::AddrHLD => String::from_str("(HL-)"),
            Operands::AddrDE => String::from_str("(DE)"),
            Operands::AddrFF00_C => String::from_str("(FF00+C)"),
            Operands::JR_Z => String::from_str("Z"),
            Operands::JR_NZ => String::from_str("NZ"),
            Operands::JR_C => String::from_str("C"),
            Operands::JR_NC => String::from_str("NC"),
            Operands::H28 => String::from_str("28H"),
            Operands::H00 => String::from_str("00H"),
            Operands::H08 => String::from_str("08H"),
            Operands::H20 => String::from_str("20H"),
            Operands::H18 => String::from_str("18H"),
            Operands::H38 => String::from_str("38H"),
            Operands::H30 => String::from_str("30H"),
            Operands::H10 => String::from_str("10H"),
            Operands::AddrFF00_U8 => {
                let mut line = String::from_str("(FF00+$");
                push_hex_byte(&mut line, byte, false);
                line.append(")");
                line
            },
            Operands::AddrU16 => {
                let mut line = String::from_str("($");
                push_hex_word(&mut line, short, false);
                line.append(")");
                line
            },
            Operands::SP_i8 => {
                let mut line = String::from_str("SP+$");
                push_hex_byte(&mut line, byte, false);
                line
            },
            Operands::U8 | Operands::I8 => {
                let mut line = String::from_str("$");
                push_hex_byte(&mut line, byte, false);
                line
            },
            Operands::U16 => {
                let mut line = String::from_str("$");
                push_hex_word(&mut line, short, false);
                line
            },
            Operands::I(x) => {
                let mut line = String::new();
                push_decimal(&mut line, x);
                assert(line@ =~= decimal(x));
                line
            },
        }
    }
}

} // verus!
