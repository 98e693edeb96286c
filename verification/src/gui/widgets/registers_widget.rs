use vstd::prelude::*;
use vstd::string::*;
use crate::emulator::cpu::Cpu;
use crate::emulator::text::{
    binary_nibble, hex_byte, hex_word, push_binary_nibble, push_hex_byte, push_hex_word,
};

verus! {

/// The registers of a processor, to be shown.
#[derive(Debug)]
pub struct RegistersWidget<'a> {
    pub cpu: &'a Cpu,
}

/// The registers of `cpu` as a block of text: A and the program counter,
/// B, C and the stack pointer, D and E, H and L, all in hexadecimal, and
/// the four flags in binary over their names.
pub open spec fn registers_text(cpu: Cpu) -> Seq<char> {
    "\n A  : "@ + hex_byte(cpu.a, true) + "    PC : "@ + hex_word(cpu.pc, true) + "\n B C: "@ + hex_byte(
        cpu.b,
        true,
    ) + " "@ + hex_byte(cpu.c, true) + " SP : "@ + hex_word(cpu.sp, true) + "\n D E: "@ + hex_byte(cpu.d, true)
        + " "@ + hex_byte(cpu.e, true) + "\n H L: "@ + hex_byte(cpu.h, true) + " "@ + hex_byte(cpu.l, true)
        + "\n F  : "@ + binary_nibble(cpu.f / 16) + "\n      ZNHC\n            "@
}

impl RegistersWidget<'_> {
    pub fn new(cpu: &Cpu) -> (r: RegistersWidget<'_>)
        ensures
            *r.cpu == *cpu,
    {
        RegistersWidget { cpu }
    }

    pub fn format_registers(&self) -> (r: String)
        ensures
            r@ == registers_text(*self.cpu),
    {
        let cpu = self.cpu;
        let mut line = String::from_str("\n A  : ");
        push_hex_byte(&mut line, cpu.a, true);
        line.append("    PC : ");
        push_hex_word(&mut line, cpu.pc, true);
        line.append("\n B C: ");
        push_hex_byte(&mut line, cpu.b, true);
        line.append(" ");
        push_hex_byte(&mut line, cpu.c, true);
        line.append(" SP : ");
        push_hex_word(&mut line, cpu.sp, true);
        line.append("\n D E: ");
        push_hex_byte(&mut line, cpu.d, true);
        line.append(" ");
        push_hex_byte(&mut line, cpu.e, true);
        line.append("\n H L: ");
        push_hex_byte(&mut line, cpu.h, true);
        line.append(" ");
        push_hex_byte(&mut line, cpu.l, true);
        line.append("\n F  : ");
        push_binary_nibble(&mut line, cpu.f / 16);
        line.append("\n      ZNHC\n            ");
        line
    }
}

} // verus!
