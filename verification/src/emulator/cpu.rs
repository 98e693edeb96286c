use vstd::prelude::*;
use vstd::string::*;
use super::bitops::{with_bit_clear, with_bit_set};
use super::bus::{Bus, BusView};
use super::instructions::opcode::{slot, Opcode, OpcodeView};
use super::instructions::opcode_table::{
    base_entry, cost, execute_opcode, execute_spec, get_opcode, get_prefixed_opcode, opcode_of, prefixed_entry,
};
use super::instructions::operand::Operands;
use super::interrupt::{
    pending_sources, source_requested, with_acknowledge, InterruptState, INT_JOYPAD, INT_LCD, INT_SERIAL,
    INT_TIMER, INT_VBLANK,
};

verus! {

pub const Z: u8 = 7;

pub const N: u8 = 6;

pub const H: u8 = 5;

pub const C: u8 = 4;

/// The processor: the eight registers, of which F holds the flags Z, N, H
/// and C in its bits 7 to 4, the stack pointer, the program counter and the
/// three latches for HALT, for the halt bug and for the delay of EI.
#[derive(Debug, Clone, Copy)]
pub struct Cpu {
    pub a: u8,
    pub f: u8,
    pub b: u8,
    pub c: u8,
    pub d: u8,
    pub e: u8,
    pub h: u8,
    pub l: u8,
    pub sp: u16,
    pub pc: u16,
    pub halt: bool,
    pub halt_bug: bool,
    pub i_enable_flag: bool,
}

/// The four flags as they stand in the high nibble of F.
pub open spec fn packed_flags(z: bool, n: bool, h: bool, c: bool) -> int {
    (if z { 128int } else { 0 }) + (if n { 64int } else { 0 }) + (if h { 32int } else { 0 }) + (if c {
        16int
    } else {
        0
    })
}

/// The flag register `f` with the four flags as given and its low nibble
/// as it was.
pub open spec fn with_flags(f: u8, z: bool, n: bool, h: bool, c: bool) -> u8 {
    (f % 16 + packed_flags(z, n, h, c)) as u8
}

/// `x` modulo 2^16.
pub open spec fn wrap16(x: int) -> u16 {
    (x % 0x10000) as u16
}

/// `x` modulo 2^8.
pub open spec fn wrap8(x: int) -> u8 {
    (x % 0x100) as u8
}

/// The byte `byte` read as a number in two's complement.
pub open spec fn signed(byte: u8) -> int {
    if byte < 128 {
        byte as int
    } else {
        byte - 256
    }
}

/// The processor at power-on: every register zero, no latch set.
pub open spec fn cpu_reset() -> Cpu {
    Cpu {
        a: 0,
        f: 0,
        b: 0,
        c: 0,
        d: 0,
        e: 0,
        h: 0,
        l: 0,
        sp: 0,
        pc: 0,
        halt: false,
        halt_bug: false,
        i_enable_flag: false,
    }
}

impl Cpu {
    pub open spec fn flag_z(self) -> bool {
        self.f / 128 % 2 == 1
    }

    pub open spec fn flag_n(self) -> bool {
        self.f / 64 % 2 == 1
    }

    pub open spec fn flag_h(self) -> bool {
        self.f / 32 % 2 == 1
    }

    pub open spec fn flag_c(self) -> bool {
        self.f / 16 % 2 == 1
    }

    /// The flag C as the number that the arithmetic with carry adds.
    pub open spec fn carry(self) -> int {
        if self.flag_c() {
            1
        } else {
            0
        }
    }

    pub open spec fn pair_af(self) -> u16 {
        (self.a * 256 + self.f) as u16
    }

    pub open spec fn pair_bc(self) -> u16 {
        (self.b * 256 + self.c) as u16
    }

    pub open spec fn pair_de(self) -> u16 {
        (self.d * 256 + self.e) as u16
    }

    pub open spec fn pair_hl(self) -> u16 {
        (self.h * 256 + self.l) as u16
    }

    pub open spec fn with_af(self, val: u16) -> Cpu {
        Cpu { a: (val / 256) as u8, f: (val % 256) as u8, ..self }
    }

    pub open spec fn with_bc(self, val: u16) -> Cpu {
        Cpu { b: (val / 256) as u8, c: (val % 256) as u8, ..self }
    }

    pub open spec fn with_de(self, val: u16) -> Cpu {
        Cpu { d: (val / 256) as u8, e: (val % 256) as u8, ..self }
    }

    pub open spec fn with_hl(self, val: u16) -> Cpu {
        Cpu { h: (val / 256) as u8, l: (val % 256) as u8, ..self }
    }

    /// The processor with the four flags as given.
    pub open spec fn with_znhc(self, z: bool, n: bool, h: bool, c: bool) -> Cpu {
        Cpu { f: with_flags(self.f, z, n, h, c), ..self }
    }

    /// The processor with bit `flag` of F set or cleared.
    pub open spec fn with_flag(self, flag: u8, value: bool) -> Cpu {
        Cpu { f: if value { with_bit_set(self.f, flag) } else { with_bit_clear(self.f, flag) }, ..self }
    }

    /// The processor past the byte at the program counter, and that byte.
    pub open spec fn fetch_byte(self, bus: BusView) -> (Cpu, u8) {
        (Cpu { pc: wrap16(self.pc + 1), ..self }, bus.read(self.pc))
    }

    /// The processor past the two bytes at the program counter, and the
    /// word they make, low byte first.
    pub open spec fn fetch_short(self, bus: BusView) -> (Cpu, u16) {
        (
            Cpu { pc: wrap16(self.pc + 2), ..self },
            (bus.read(wrap16(self.pc + 1)) * 256 + bus.read(self.pc)) as u16,
        )
    }

    /// The value of the general register, or of F, that `operand` names.
    pub open spec fn register(self, operand: Operands) -> u8 {
        match operand {
            Operands::A => self.a,
            Operands::F => self.f,
            Operands::B => self.b,
            Operands::C => self.c,
            Operands::D => self.d,
            Operands::E => self.e,
            Operands::H => self.h,
            _ => self.l,
        }
    }

    /// The processor with `value` in the register that `operand` names.
    pub open spec fn with_register(self, operand: Operands, value: u8) -> Cpu {
        match operand {
            Operands::A => Cpu { a: value, ..self },
            Operands::F => Cpu { f: value, ..self },
            Operands::B => Cpu { b: value, ..self },
            Operands::C => Cpu { c: value, ..self },
            Operands::D => Cpu { d: value, ..self },
            Operands::E => Cpu { e: value, ..self },
            Operands::H => Cpu { h: value, ..self },
            _ => Cpu { l: value, ..self },
        }
    }

    /// The value of the register pair, or of the stack pointer, that
    /// `operand` names.
    pub open spec fn wide_register(self, operand: Operands) -> u16 {
        match operand {
            Operands::AF => self.pair_af(),
            Operands::BC => self.pair_bc(),
            Operands::DE => self.pair_de(),
            Operands::HL => self.pair_hl(),
            _ => self.sp,
        }
    }

    /// The processor with `value` in the register pair, or in the stack
    /// pointer, that `operand` names. The low nibble of F takes nothing.
    pub open spec fn with_wide_register(self, operand: Operands, value: u16) -> Cpu {
        match operand {
            Operands::AF => self.with_af((value / 16 * 16) as u16),
            Operands::BC => self.with_bc(value),
            Operands::DE => self.with_de(value),
            Operands::HL => self.with_hl(value),
            _ => Cpu { sp: value, ..self },
        }
    }

    /// The value of a register or of the byte that HL points at.
    pub open spec fn operand_value(self, bus: BusView, operand: Operands) -> u8 {
        if operand is AddrHL {
            bus.read(self.pair_hl())
        } else {
            self.register(operand)
        }
    }

    /// The processor and the bus with `value` in a register or in the byte
    /// that HL points at.
    pub open spec fn with_operand_value(self, bus: BusView, operand: Operands, value: u8) -> (Cpu, BusView) {
        if operand is AddrHL {
            (self, bus.write(self.pair_hl(), value))
        } else {
            (self.with_register(operand, value), bus)
        }
    }

    /// The second operand of the accumulator's arithmetic, and the
    /// processor past it where it follows the opcode.
    pub open spec fn byte_source(self, bus: BusView, operand: Operands) -> (Cpu, u8) {
        if operand is U8 {
            self.fetch_byte(bus)
        } else {
            (self, self.operand_value(bus, operand))
        }
    }

    /// Whether the condition that `operand` names holds of the flags; what
    /// names no condition holds always.
    pub open spec fn condition(self, operand: Operands) -> bool {
        match operand {
            Operands::JR_Z => self.flag_z(),
            Operands::JR_NZ => !self.flag_z(),
            Operands::JR_C => self.flag_c(),
            Operands::JR_NC => !self.flag_c(),
            _ => true,
        }
    }

    /// The processor and the bus after `value` is pushed: the stack pointer
    /// goes down by two, and the word lies at it, low byte first.
    pub open spec fn pushed(self, bus: BusView, value: u16) -> (Cpu, BusView) {
        (
            Cpu { sp: wrap16(self.sp - 2), ..self },
            bus.write(wrap16(self.sp - 1), (value / 256) as u8).write(wrap16(self.sp - 2), (value % 256) as u8),
        )
    }

    /// The processor after a word is popped, and that word: it is read at
    /// the stack pointer, low byte first, and the stack pointer goes up by
    /// two.
    pub open spec fn popped(self, bus: BusView) -> (Cpu, u16) {
        (
            Cpu { sp: wrap16(self.sp + 2), ..self },
            (bus.read(wrap16(self.sp + 1)) * 256 + bus.read(self.sp)) as u16,
        )
    }

    /// The processor after HALT: it sleeps, unless interrupts are switched
    /// off while one is pending, in which case it goes on and the next
    /// opcode is fetched without the program counter moving.
    pub open spec fn halted(self, interrupt: InterruptState) -> Cpu {
        if !interrupt.ime && pending_sources(interrupt) != 0 {
            Cpu { halt: false, halt_bug: true, ..self }
        } else {
            Cpu { halt: true, ..self }
        }
    }

    pub fn new() -> (cpu: Cpu)
        ensures
            cpu == cpu_reset(),
    {
        Cpu {
            a: 0u8,
            f: 0u8,
            b: 0u8,
            c: 0u8,
            d: 0u8,
            e: 0u8,
            h: 0u8,
            l: 0u8,
            sp: 0u16,
            pc: 0u16,
            halt: false,
            halt_bug: false,
            i_enable_flag: false,
        }
    }

    pub fn next_byte(&mut self, bus: &Bus) -> (r: u8)
        requires
            bus@.wf(),
        ensures
            (*final(self), r) == old(self).fetch_byte(bus@),
    {
        let address = self.pc;
        self.pc = self.pc.wrapping_add(1);
        bus.read_byte(address)
    }

    pub fn next_short(&mut self, bus: &Bus) -> (r: u16)
        requires
            bus@.wf(),
        ensures
            (*final(self), r) == old(self).fetch_short(bus@),
    {
        let lo = self.next_byte(bus) as u16;
        let hi = self.next_byte(bus) as u16;
        hi * 256 + lo
    }

    pub fn z(&self) -> (r: bool)
        ensures
            r == self.flag_z(),
    {
        self.f / 128 % 2 == 1
    }

    pub fn n(&self) -> (r: bool)
        ensures
            r == self.flag_n(),
    {
        self.f / 64 % 2 == 1
    }

    pub fn h(&self) -> (r: bool)
        ensures
            r == self.flag_h(),
    {
        self.f / 32 % 2 == 1
    }

    pub fn c(&self) -> (r: bool)
        ensures
            r == self.flag_c(),
    {
        self.f / 16 % 2 == 1
    }

    /// Sets or clears bit `flag` of F.
    pub fn set(&mut self, flag: u8, value: bool)
        requires
            flag < 8,
        ensures
            *final(self) == old(self).with_flag(flag, value),
    {
        if value {
            self.f = self.f | (1u8 << flag);
        } else {
            self.f = self.f & !(1u8 << flag);
        }
    }

    /// Sets the four flags at once.
    pub fn set_flags(&mut self, z: bool, n: bool, h: bool, c: bool)
        ensures
            *final(self) == old(self).with_znhc(z, n, h, c),
    {
        let zb: u8 = if z { 128 } else { 0 };
        let nb: u8 = if n { 64 } else { 0 };
        let hb: u8 = if h { 32 } else { 0 };
        let cb: u8 = if c { 16 } else { 0 };
        self.f = self.f % 16 + zb + nb + hb + cb;
    }

    pub fn af(&self) -> (r: u16)
        ensures
            r == self.pair_af(),
    {
        self.a as u16 * 256 + self.f as u16
    }

    pub fn bc(&self) -> (r: u16)
        ensures
            r == self.pair_bc(),
    {
        self.b as u16 * 256 + self.c as u16
    }

    pub fn de(&self) -> (r: u16)
        ensures
            r == self.pair_de(),
    {
        self.d as u16 * 256 + self.e as u16
    }

    pub fn hl(&self) -> (r: u16)
        ensures
            r == self.pair_hl(),
    {
        self.h as u16 * 256 + self.l as u16
    }

    pub fn set_af(&mut self, val: u16)
        ensures
            *final(self) == old(self).with_af(val),
    {
        self.a = (val / 256) as u8;
        self.f = (val % 256) as u8;
    }

    pub fn set_bc(&mut self, val: u16)
        ensures
            *final(self) == old(self).with_bc(val),
    {
        self.b = (val / 256) as u8;
        self.c = (val % 256) as u8;
    }

    pub fn set_de(&mut self, val: u16)
        ensures
            *final(self) == old(self).with_de(val),
    {
        self.d = (val / 256) as u8;
        self.e = (val % 256) as u8;
    }

    pub fn set_hl(&mut self, val: u16)
        ensures
            *final(self) == old(self).with_hl(val),
    {
        self.h = (val / 256) as u8;
        self.l = (val % 256) as u8;
    }

    pub fn halt(&mut self, interrupt: &InterruptState)
        ensures
            *final(self) == old(self).halted(*interrupt),
    {
        if !interrupt.ime && interrupt.have_pending() {
            self.halt = false;
            self.halt_bug = true;
        } else {
            self.halt = true;
        }
    }

    /// The value of the general register, or of F, that `operand` names.
    pub fn get_register(&self, operand: Operands) -> (r: u8)
        requires
            operand.is_register() || operand is F,
        ensures
            r == self.register(operand),
    {
        match operand {
            Operands::A => self.a,
            Operands::F => self.f,
            Operands::B => self.b,
            Operands::C => self.c,
            Operands::D => self.d,
            Operands::E => self.e,
            Operands::H => self.h,
            _ => self.l,
        }
    }

    /// Puts `value` into the general register, or into F, that `operand`
    /// names.
    pub fn set_register(&mut self, operand: Operands, value: u8)
        requires
            operand.is_register() || operand is F,
        ensures
            *final(self) == old(self).with_register(operand, value),
    {
        match operand {
            Operands::A => {
                self.a = value;
            },
            Operands::F => {
                self.f = value;
            },
            Operands::B => {
                self.b = value;
            },
            Operands::C => {
                self.c = value;
            },
            Operands::D => {
                self.d = value;
            },
            Operands::E => {
                self.e = value;
            },
            Operands::H => {
                self.h = value;
            },
            _ => {
                self.l = value;
            },
        }
    }

    /// The value of the register pair, or of the stack pointer, that
    /// `operand` names.
    pub fn get_wide_register(&self, operand: Operands) -> (r: u16)
        requires
            operand.is_wide_register() || operand is AF,
        ensures
            r == self.wide_register(operand),
    {
        match operand {
            Operands::AF => self.af(),
            Operands::BC => self.bc(),
            Operands::DE => self.de(),
            Operands::HL => self.hl(),
            _ => self.sp,
        }
    }

    /// Puts `value` into the register pair, or into the stack pointer, that
    /// `operand` names.
    pub fn set_wide_register(&mut self, operand: Operands, value: u16)
        requires
            operand.is_wide_register() || operand is AF,
        ensures
            *final(self) == old(self).with_wide_register(operand, value),
    {
        match operand {
            Operands::AF => self.set_af(value / 16 * 16),
            Operands::BC => self.set_bc(value),
            Operands::DE => self.set_de(value),
            Operands::HL => self.set_hl(value),
            _ => {
                self.sp = value;
            },
        }
    }

    /// Reads a register or the byte that HL points at.
    pub fn read_operand(&self, bus: &Bus, operand: Operands) -> (r: u8)
        requires
            bus@.wf(),
            operand.is_register_or_hl(),
        ensures
            r == self.operand_value(bus@, operand),
    {
        match operand {
            Operands::AddrHL => bus.read_byte(self.hl()),
            _ => self.get_register(operand),
        }
    }

    /// Writes a register or the byte that HL points at.
    pub fn write_operand(&mut self, bus: &mut Bus, operand: Operands, value: u8)
        requires
            old(bus)@.wf(),
            operand.is_register_or_hl(),
        ensures
            (*final(self), final(bus)@) == old(self).with_operand_value(old(bus)@, operand, value),
            final(bus)@.wf(),
    {
        match operand {
            Operands::AddrHL => bus.write_byte(self.hl(), value),
            _ => self.set_register(operand, value),
        }
    }

    /// Reads the second operand of the accumulator's arithmetic.
    pub fn read_source(&mut self, bus: &Bus, operand: Operands) -> (r: u8)
        requires
            bus@.wf(),
            operand.is_byte_source(),
        ensures
            (*final(self), r) == old(self).byte_source(bus@, operand),
    {
        match operand {
            Operands::U8 => self.next_byte(bus),
            _ => self.read_operand(bus, operand),
        }
    }

    /// Tells whether the condition that `operand` names holds.
    pub fn test_condition(&self, operand: Operands) -> (r: bool)
        ensures
            r == self.condition(operand),
    {
        match operand {
            Operands::JR_Z => self.z(),
            Operands::JR_NZ => !self.z(),
            Operands::JR_C => self.c(),
            Operands::JR_NC => !self.c(),
            _ => true,
        }
    }

    /// Pushes `value` on the stack, high byte first.
    pub fn push_word(&mut self, bus: &mut Bus, value: u16)
        requires
            old(bus)@.wf(),
        ensures
            (*final(self), final(bus)@) == old(self).pushed(old(bus)@, value),
            final(bus)@.wf(),
    {
        self.sp = self.sp.wrapping_sub(1);
        bus.write_byte(self.sp, (value / 256) as u8);
        self.sp = self.sp.wrapping_sub(1);
        bus.write_byte(self.sp, (value % 256) as u8);
    }

    /// Pops a word off the stack, low byte first.
    pub fn pop_word(&mut self, bus: &Bus) -> (r: u16)
        requires
            bus@.wf(),
        ensures
            (*final(self), r) == old(self).popped(bus@),
    {
        let lo = bus.read_byte(self.sp) as u16;
        self.sp = self.sp.wrapping_add(1);
        let hi = bus.read_byte(self.sp) as u16;
        self.sp = self.sp.wrapping_add(1);
        hi * 256 + lo
    }
}

/// An operand of a listing with what stands before it, or nothing for an
/// empty slot.
pub open spec fn operand_text(before: Seq<char>, operand: Option<Operands>, byte: u8, short: u16) -> Seq<char> {
    match operand {
        Some(o) => before + o.text(byte, short),
        None => Seq::empty(),
    }
}

/// The line of a listing for the entry `opcode` with the bytes `data`
/// behind its opcode: the name, then the operands, the first after a space
/// and the second after a comma and a space. A single byte behind the
/// opcode is the value of a byte operand, two are that of a word operand,
/// low byte first.
pub open spec fn disassembly(opcode: OpcodeView, data: Seq<u8>) -> Seq<char> {
    let byte = if data.len() > 0 { data[0] } else { 0u8 };
    let short = if data.len() == 2 { (data[1] * 256 + data[0]) as u16 } else { 0u16 };
    opcode.mnemonic + operand_text(" "@, opcode.operand1, byte, short) + operand_text(
        ", "@,
        opcode.operand2,
        byte,
        short,
    )
}

/// The four flags as letters, Z, N, H and C in this order, in upper case
/// where the flag is set and in lower case where it is clear.
pub open spec fn flag_text(cpu: Cpu) -> Seq<char> {
    (if cpu.flag_z() { "Z"@ } else { "z"@ }) + (if cpu.flag_n() { "N"@ } else { "n"@ }) + (if cpu.flag_h() {
        "H"@
    } else {
        "h"@
    }) + (if cpu.flag_c() { "C"@ } else { "c"@ })
}

/// T-cycles that the dispatch of an interrupt takes.
pub const DISPATCH_CYCLES: i32 = 20;

/// T-cycles that pass in a step while the processor sleeps.
pub const HALT_CYCLES: i32 = 4;

/// The source that is served first among those pending: V-blank before
/// LCD before timer before serial before joypad.
pub open spec fn first_source(interrupt: InterruptState) -> u8 {
    if source_requested(interrupt, INT_VBLANK) {
        INT_VBLANK
    } else if source_requested(interrupt, INT_LCD) {
        INT_LCD
    } else if source_requested(interrupt, INT_TIMER) {
        INT_TIMER
    } else if source_requested(interrupt, INT_SERIAL) {
        INT_SERIAL
    } else {
        INT_JOYPAD
    }
}

/// Where the handler of a source begins: 0x40 for V-blank, and eight more
/// for each source after it.
pub open spec fn vector_of(source: u8) -> u16 {
    (0x40 + 8 * source) as u16
}

/// The processor and the bus after the interrupts have been looked at, and
/// whether one was dispatched.
///
/// With nothing pending nothing changes. A pending interrupt wakes the
/// processor. If the master enable is set as well, it is cleared, the
/// program counter goes on the stack and becomes the vector of the first
/// pending source, and the request of that source is taken back.
pub open spec fn interrupt_served(cpu: Cpu, bus: BusView) -> (Cpu, BusView, bool) {
    if pending_sources(bus.interrupt) == 0 {
        (cpu, bus, false)
    } else if !bus.interrupt.ime {
        (Cpu { halt: false, ..cpu }, bus, false)
    } else {
        let source = first_source(bus.interrupt);
        let pushed = (Cpu { halt: false, ..cpu }).pushed(
            BusView { interrupt: InterruptState { ime: false, ..bus.interrupt }, ..bus },
            cpu.pc,
        );
        (
            Cpu { pc: vector_of(source), ..pushed.0 },
            BusView { interrupt: with_acknowledge(pushed.1.interrupt, source), ..pushed.1 },
            true,
        )
    }
}

/// The entry of the instruction at the program counter, the processor past
/// its opcode, and whether there is such an instruction. The opcode byte
/// is passed over only if `increment_pc` says so; a second byte, behind the
/// prefix 0xCB, always.
pub open spec fn fetched(cpu: Cpu, bus: BusView, increment_pc: bool) -> (Cpu, Option<OpcodeView>) {
    let byte = bus.read(cpu.pc);
    let past = if increment_pc { cpu.fetch_byte(bus).0 } else { cpu };
    if byte == 0xCB {
        let second = past.fetch_byte(bus);
        (second.0, Some(opcode_of(second.1, prefixed_entry(second.1), true)))
    } else {
        (
            past,
            match base_entry(byte) {
                Some(entry) => Some(opcode_of(byte, entry, false)),
                None => None,
            },
        )
    }
}

/// The processor and the bus after one instruction, and what it cost.
///
/// The instruction is fetched. If EI was the instruction before, the
/// master enable is now set. The instruction is executed, and the low
/// nibble of F is cleared.
pub open spec fn run_spec(cpu: Cpu, bus: BusView, increment_pc: bool) -> (Cpu, BusView, i32) {
    let fetch = fetched(cpu, bus, increment_pc);
    let opcode = fetch.1->Some_0;
    let done = execute_spec(
        Cpu { i_enable_flag: false, ..fetch.0 },
        if cpu.i_enable_flag {
            BusView { interrupt: InterruptState { ime: true, ..bus.interrupt }, ..bus }
        } else {
            bus
        },
        opcode.group,
        slot(opcode.operand1),
        slot(opcode.operand2),
    );
    (Cpu { f: (done.0.f / 16 * 16) as u8, ..done.0 }, done.1, cost(opcode, done.2))
}

/// Whether the step finds an instruction to execute, or none to fetch: an
/// interrupt may move the program counter first, and a processor that
/// sleeps fetches nothing.
pub open spec fn step_is_legal(cpu: Cpu, bus: BusView) -> bool {
    let served = interrupt_served(cpu, bus);
    served.0.halt || fetched(served.0, served.1, !served.0.halt_bug).1 is Some
}

/// The processor and the bus after one step, and what it cost.
///
/// The interrupts are looked at first. A processor that still sleeps lets
/// four T-cycles pass. Otherwise one instruction runs; if the halt bug is
/// armed, its opcode is fetched without the program counter moving, and the
/// bug is disarmed. A dispatch adds twenty T-cycles to the cost.
pub open spec fn step_spec(cpu: Cpu, bus: BusView) -> (Cpu, BusView, i32) {
    let served = interrupt_served(cpu, bus);
    if served.0.halt {
        (served.0, served.1, HALT_CYCLES)
    } else {
        let ran = run_spec(Cpu { halt_bug: false, ..served.0 }, served.1, !served.0.halt_bug);
        (ran.0, ran.1, (ran.2 + if served.2 { DISPATCH_CYCLES as int } else { 0 }) as i32)
    }
}

impl Cpu {
    /// The first pending source; one is pending.
    fn first_pending(interrupt: &InterruptState) -> (r: u8)
        ensures
            r == first_source(*interrupt),
            r <= 4,
    {
        if interrupt.is_requested(INT_VBLANK) {
            INT_VBLANK
        } else if interrupt.is_requested(INT_LCD) {
            INT_LCD
        } else if interrupt.is_requested(INT_TIMER) {
            INT_TIMER
        } else if interrupt.is_requested(INT_SERIAL) {
            INT_SERIAL
        } else {
            INT_JOYPAD
        }
    }

    /// Writes the line of a listing for the entry `opcode` with the bytes
    /// `data` behind its opcode.
    pub fn disassemble_opcode(opcode: &Opcode, data: Vec<u8>) -> (line: String)
        requires
            data@.len() == opcode.length - 1,
        ensures
            line@ == disassembly(opcode@, data@),
    {
        let mut line = opcode.mnemonic.clone();
        let mut byte: u8 = 0;
        let mut short: u16 = 0;
        if data.len() > 0 {
            byte = data[0];
        }
        if data.len() == 2 {
            short = data[1] as u16 * 256 + data[0] as u16;
        }
        if let Some(op1) = &opcode.operand1 {
            line.append(" ");
            let text = op1.get_str_format(byte, short);
            line.append(text.as_str());
        }
        if let Some(op2) = &opcode.operand2 {
            line.append(", ");
            let text = op2.get_str_format(byte, short);
            line.append(text.as_str());
        }
        assert(line@ =~= disassembly(opcode@, data@));
        line
    }

    /// The four flags as letters.
    pub fn format_flag(&self) -> (r: String)
        ensures
            r@ == flag_text(*self),
    {
        let mut line = String::from_str(if self.z() { "Z" } else { "z" });
        line.append(if self.n() { "N" } else { "n" });
        line.append(if self.h() { "H" } else { "h" });
        line.append(if self.c() { "C" } else { "c" });
        line
    }

    /// Looks at the interrupts, and dispatches the first pending one if the
    /// master enable allows; tells whether it did.
    pub fn perform_interrupt(&mut self, bus: &mut Bus) -> (dispatched: bool)
        requires
            old(bus)@.wf(),
        ensures
            (*final(self), final(bus)@, dispatched) == interrupt_served(*old(self), old(bus)@),
            final(bus)@.wf(),
    {
        if !bus.interrupt.have_pending() {
            return false;
        }
        self.halt = false;
        if !bus.interrupt.ime {
            return false;
        }
        let source = Self::first_pending(&bus.interrupt);
        bus.interrupt.ime = false;
        let from = self.pc;
        self.push_word(bus, from);
        bus.interrupt.interrupt_flag = bus.interrupt.interrupt_flag & !(1u8 << source);
        self.pc = 0x40 + 8 * source as u16;
        true
    }

    /// Tells whether there is an instruction at the program counter.
    pub fn can_run(&self, bus: &Bus, increment_pc: bool) -> (r: bool)
        requires
            bus@.wf(),
        ensures
            r == fetched(*self, bus@, increment_pc).1 is Some,
    {
        let byte = bus.read_byte(self.pc);
        byte == 0xCB || get_opcode(byte).is_ok()
    }

    /// Fetches, decodes and executes one instruction, and returns what it
    /// cost in T-cycles.
    #[verifier::rlimit(50)]
    pub fn run(&mut self, bus: &mut Bus, increment_pc: bool) -> (cycles: i32)
        requires
            old(bus)@.wf(),
            fetched(*old(self), old(bus)@, increment_pc).1 is Some,
        ensures
            (*final(self), final(bus)@, cycles) == run_spec(*old(self), old(bus)@, increment_pc),
            final(bus)@.wf(),
            final(self).f % 16 == 0,
            4 <= cycles <= 24,
    {
        let set_ime = self.i_enable_flag;
        self.i_enable_flag = false;
        let opcode_byte = bus.read_byte(self.pc);
        if increment_pc {
            self.pc = self.pc.wrapping_add(1);
        }
        let opcode = if opcode_byte == 0xCB {
            let cb_opcode_byte = self.next_byte(bus);
            get_prefixed_opcode(cb_opcode_byte)
        } else {
            match get_opcode(opcode_byte) {
                Ok(opcode) => opcode,
                Err(_) => vstd::pervasive::unreached(),
            }
        };
        proof {
            crate::emulator::instructions::opcode_table::lemma_tables_are_sound(opcode.opcode_byte);
        }
        if set_ime {
            bus.interrupt.ime = true;
        }
        let time = execute_opcode(self, bus, &opcode);
        self.f = self.f / 16 * 16;
        time
    }

    /// Takes one step: looks at the interrupts, then runs one instruction
    /// unless the processor sleeps. Returns what the step cost in T-cycles.
    pub fn step(&mut self, bus: &mut Bus) -> (cycles: i32)
        requires
            old(bus)@.wf(),
            step_is_legal(*old(self), old(bus)@),
        ensures
            (*final(self), final(bus)@, cycles) == step_spec(*old(self), old(bus)@),
            final(bus)@.wf(),
            4 <= cycles <= 44,
    {
        let interrupted = self.perform_interrupt(bus);
        if self.halt {
            return HALT_CYCLES;
        }
        let increment_pc = !self.halt_bug;
        self.halt_bug = false;
        let cycle = self.run(bus, increment_pc);
        if interrupted {
            cycle + DISPATCH_CYCLES
        } else {
            cycle
        }
    }

    /// Takes one step if there is one to take: the interrupts are looked at
    /// in any case, and `None` tells that the processor then stood before a
    /// byte that names no instruction.
    pub fn try_step(&mut self, bus: &mut Bus) -> (cycles: Option<i32>)
        requires
            old(bus)@.wf(),
        ensures
            cycles is Some <==> step_is_legal(*old(self), old(bus)@),
            match cycles {
                Some(c) => (*final(self), final(bus)@, c) == step_spec(*old(self), old(bus)@) && 4 <= c <= 44,
                None => (*final(self), final(bus)@) == ({
                    let served = interrupt_served(*old(self), old(bus)@);
                    (served.0, served.1)
                }),
            },
            final(bus)@.wf(),
    {
        let interrupted = self.perform_interrupt(bus);
        if self.halt {
            return Some(HALT_CYCLES);
        }
        let increment_pc = !self.halt_bug;
        if !self.can_run(bus, increment_pc) {
            return None;
        }
        self.halt_bug = false;
        let cycle = self.run(bus, increment_pc);
        if interrupted {
            Some(cycle + DISPATCH_CYCLES)
        } else {
            Some(cycle)
        }
    }
}

/// What setting and clearing the bits 4 to 7 of a byte does to its
/// halves.
proof fn lemma_high_bits(f: u8)
    by (bit_vector)
    ensures
        (f | (1u8 << 7u8)) / 128 % 2 == 1 && (f & !(1u8 << 7u8)) / 128 % 2 == 0,
        (f | (1u8 << 6u8)) / 64 % 2 == 1 && (f & !(1u8 << 6u8)) / 64 % 2 == 0,
        (f | (1u8 << 5u8)) / 32 % 2 == 1 && (f & !(1u8 << 5u8)) / 32 % 2 == 0,
        (f | (1u8 << 4u8)) / 16 % 2 == 1 && (f & !(1u8 << 4u8)) / 16 % 2 == 0,
        (f | (1u8 << 7u8)) % 128 == f % 128 && (f & !(1u8 << 7u8)) % 128 == f % 128,
        (f | (1u8 << 6u8)) / 128 == f / 128 && (f & !(1u8 << 6u8)) / 128 == f / 128,
        (f | (1u8 << 6u8)) % 64 == f % 64 && (f & !(1u8 << 6u8)) % 64 == f % 64,
        (f | (1u8 << 5u8)) / 64 == f / 64 && (f & !(1u8 << 5u8)) / 64 == f / 64,
        (f | (1u8 << 5u8)) % 32 == f % 32 && (f & !(1u8 << 5u8)) % 32 == f % 32,
        (f | (1u8 << 4u8)) / 32 == f / 32 && (f & !(1u8 << 4u8)) / 32 == f / 32,
        (f | (1u8 << 4u8)) % 16 == f % 16 && (f & !(1u8 << 4u8)) % 16 == f % 16,
{
}

/// The flags are the bits 7 to 4 of F: setting or clearing one of these
/// bits sets or clears the flag that it stands for, and leaves the other
/// flags and the low nibble of F as they were.
pub proof fn lemma_flag_is_a_bit(cpu: Cpu, flag: u8, value: bool)
    requires
        4 <= flag <= 7,
    ensures
        cpu.with_flag(flag, value).flag_z() == (if flag == Z { value } else { cpu.flag_z() }),
        cpu.with_flag(flag, value).flag_n() == (if flag == N { value } else { cpu.flag_n() }),
        cpu.with_flag(flag, value).flag_h() == (if flag == H { value } else { cpu.flag_h() }),
        cpu.with_flag(flag, value).flag_c() == (if flag == C { value } else { cpu.flag_c() }),
        cpu.with_flag(flag, value).f % 16 == cpu.f % 16,
        cpu.with_flag(flag, value) == (Cpu { f: cpu.with_flag(flag, value).f, ..cpu }),
{
    lemma_high_bits(cpu.f);
}

/// The four flags read back as they were set together, and setting them
/// leaves the low nibble of F as it was.
pub proof fn lemma_flags_read_back(cpu: Cpu, z: bool, n: bool, h: bool, c: bool)
    ensures
        cpu.with_znhc(z, n, h, c).flag_z() == z,
        cpu.with_znhc(z, n, h, c).flag_n() == n,
        cpu.with_znhc(z, n, h, c).flag_h() == h,
        cpu.with_znhc(z, n, h, c).flag_c() == c,
        cpu.with_znhc(z, n, h, c).f % 16 == cpu.f % 16,
{
}

/// A register pair gives back the word that was put into it.
pub proof fn lemma_pairs_read_back(cpu: Cpu, value: u16)
    ensures
        cpu.with_af(value).pair_af() == value,
        cpu.with_bc(value).pair_bc() == value,
        cpu.with_de(value).pair_de() == value,
        cpu.with_hl(value).pair_hl() == value,
{
}

/// `base` moved by `offset`, which is read in two's complement.
pub fn offset_address(base: u16, offset: u8) -> (r: u16)
    ensures
        r == wrap16(base + signed(offset)),
{
    if offset < 128 {
        base.wrapping_add(offset as u16)
    } else {
        base.wrapping_sub(256 - offset as u16)
    }
}

impl Default for Cpu {
    fn default() -> (cpu: Cpu)
        ensures
            cpu == cpu_reset(),
    {
        Self::new()
    }
}

} // verus!
