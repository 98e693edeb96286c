//! What holds of the machine whatever state it is in, proved from the
//! models that the contracts of the functions speak of.

use vstd::prelude::*;
use super::bitops::{bit_value, lemma_bit_facts};
use super::bus::BusView;
use super::cpu::{fetched, first_source, interrupt_served, run_spec, step_spec, vector_of, wrap16, Cpu};
use super::instructions::inst_group::InstGroup;
use super::instructions::opcode::slot;
use super::instructions::opcode_table::{execute_spec, lemma_tables_are_sound};
use super::instructions::operand::Operands;
use super::instructions::{alu16, alu8, bits, jumps, loads, misc, rotates, stack};
use super::mbcs::mbc1::Mbc1View;
use super::mbcs::mbc5::Mbc5View;
use super::instructions::stack::{pop_spec, push_spec};
use super::interrupt::{
    lemma_pending_is_some_source, pending_sources, source_requested, ADDRESS_IE, ADDRESS_IF,
};
use super::ppu::{BGP, LYC, OBP0, OBP1, SCX, SCY, WX, WY};
use super::timer::DIV;

verus! {

/// The registers that give back what was written to them.
pub open spec fn reads_back(address: u16) -> bool {
    address == BGP || address == OBP0 || address == OBP1 || address == SCX || address == SCY || address == WX
        || address == WY || address == LYC || address == ADDRESS_IE || address == ADDRESS_IF
}

/// A byte written to one of the registers BGP, OBP0, OBP1, SCX, SCY, WX,
/// WY, LYC, IE and IF is the byte then read from it.
pub proof fn lemma_register_round_trip(bus: BusView, address: u16, value: u8)
    requires
        reads_back(address),
    ensures
        bus.write(address, value).read(address) == value,
{
    reveal(BusView::read);
    reveal(BusView::write);
}

/// Whatever is written to DIV, DIV then reads as zero.
pub proof fn lemma_div_write_reads_zero(bus: BusView, value: u8)
    ensures
        bus.write(DIV, value).read(DIV) == 0,
{
    reveal(BusView::read);
    reveal(BusView::write);
}

/// The addresses of video memory, work RAM, sprite memory and high RAM.
pub open spec fn is_plain_memory(address: u16) -> bool {
    0x8000 <= address <= 0x9FFF || 0xC000 <= address <= 0xDFFF || 0xFE00 <= address <= 0xFE9F || 0xFF80
        <= address <= 0xFFFE
}

/// A byte written to video memory, work RAM, sprite memory or high RAM is
/// the byte then read there, and a byte anywhere else in these memories
/// reads as before.
pub proof fn lemma_memory_round_trip(bus: BusView, address: u16, value: u8, other: u16)
    requires
        bus.wf(),
        is_plain_memory(address),
    ensures
        bus.write(address, value).read(address) == value,
        is_plain_memory(other) && other != address ==> bus.write(address, value).read(other) == bus.read(other),
        bus.write(address, value).wf(),
{
    reveal(BusView::read);
    reveal(BusView::write);
}

/// What is written to the echo of work RAM or to the gap behind sprite
/// memory changes nothing, and both read as zero.
pub proof fn lemma_echo_is_inert(bus: BusView, address: u16, value: u8)
    requires
        0xE000 <= address <= 0xFDFF || 0xFEA0 <= address <= 0xFEFF,
    ensures
        bus.write(address, value) == bus,
        bus.read(address) == 0,
{
    reveal(BusView::read);
    reveal(BusView::write);
}

/// LY cannot be written, and of STAT a write changes neither the phase nor
/// the coincidence bit.
pub proof fn lemma_read_only_registers(bus: BusView, value: u8)
    ensures
        bus.write(super::ppu::LY, value) == bus,
        bus.write(super::ppu::STAT, value).ppu.stat % 8 == bus.ppu.stat % 8,
        bus.write(super::ppu::STAT, value).ppu.stat / 8 % 16 == value / 8 % 16,
{
    reveal(BusView::write);
}

/// The low nibble of F is zero after every instruction.
pub proof fn lemma_low_nibble_of_f_is_zero(cpu: Cpu, bus: BusView, increment_pc: bool)
    ensures
        run_spec(cpu, bus, increment_pc).0.f % 16 == 0,
{
}

/// While an enabled source is requested and the master enable is set, the
/// next step begins with a dispatch: the master enable is cleared, the
/// processor is awake at the vector of the first pending source, which is
/// one of the five and was both enabled and requested, its request is
/// taken back and the others stay, and the old program counter lies on the
/// stack. The instruction of the step is then fetched from the vector.
pub proof fn lemma_pending_interrupt_is_dispatched(cpu: Cpu, bus: BusView)
    requires
        pending_sources(bus.interrupt) != 0,
        bus.interrupt.ime,
    ensures
        ({
            let served = interrupt_served(cpu, bus);
            let source = first_source(bus.interrupt);
            &&& served.2
            &&& source <= 4
            &&& source_requested(bus.interrupt, source)
            &&& forall|earlier: u8| earlier < source ==> !source_requested(bus.interrupt, earlier)
            &&& served.0.pc == vector_of(source)
            &&& served.0.pc == 0x40 + 8 * source
            &&& !served.0.halt
            &&& served.0.sp == wrap16(cpu.sp - 2)
            &&& !served.1.interrupt.ime
            &&& bit_value(served.1.interrupt.interrupt_flag, source) == 0
            &&& step_spec(cpu, bus) == ({
                let ran = run_spec(Cpu { halt_bug: false, ..served.0 }, served.1, !served.0.halt_bug);
                (ran.0, ran.1, (ran.2 + 20) as i32)
            })
        }),
{
    lemma_pending_is_some_source(bus.interrupt);
    let served = interrupt_served(cpu, bus);
    let source = first_source(bus.interrupt);
    let pushed = (Cpu { halt: false, ..cpu }).pushed(
        BusView { interrupt: super::interrupt::InterruptState { ime: false, ..bus.interrupt }, ..bus },
        cpu.pc,
    );
    lemma_bit_facts(pushed.1.interrupt.interrupt_flag, source);
    lemma_push_keeps_ime(
        Cpu { halt: false, ..cpu },
        BusView { interrupt: super::interrupt::InterruptState { ime: false, ..bus.interrupt }, ..bus },
        cpu.pc,
    );
    assert forall|earlier: u8| earlier < source implies !source_requested(bus.interrupt, earlier) by {
        assert(earlier == 0 || earlier == 1 || earlier == 2 || earlier == 3);
    }
}

/// No write through the bus changes the master enable.
pub proof fn lemma_write_keeps_ime(bus: BusView, address: u16, value: u8)
    ensures
        bus.write(address, value).interrupt.ime == bus.interrupt.ime,
{
    reveal(BusView::write);
}

/// A push changes nothing of the master enable.
pub proof fn lemma_push_keeps_ime(cpu: Cpu, bus: BusView, value: u16)
    ensures
        cpu.pushed(bus, value).1.interrupt.ime == bus.interrupt.ime,
{
    lemma_write_keeps_ime(bus, wrap16(cpu.sp - 1), (value / 256) as u8);
    lemma_write_keeps_ime(bus.write(wrap16(cpu.sp - 1), (value / 256) as u8), wrap16(cpu.sp - 2), (value % 256) as u8);
}

/// Whether the two bytes at `sp` lie in work RAM or in high RAM.
pub open spec fn stack_in_ram(sp: u16) -> bool {
    0xC000 <= sp < 0xDFFF || 0xFF80 <= sp < 0xFFFE
}

/// Writing back to work RAM or high RAM the byte that is there changes
/// nothing.
pub proof fn lemma_write_back_is_identity(bus: BusView, address: u16)
    requires
        bus.wf(),
        0xC000 <= address <= 0xDFFF || 0xFF80 <= address <= 0xFFFE,
    ensures
        bus.write(address, bus.read(address)) == bus,
{
    reveal(BusView::read);
    reveal(BusView::write);
    let after = bus.write(address, bus.read(address));
    if address >= 0xFF80 {
        assert(after.hram =~= bus.hram);
    } else {
        assert(after.wram =~= bus.wram);
    }
}

/// A word made of two bytes gives the bytes back, and clearing its low
/// nibble clears that of its low byte.
pub proof fn lemma_word_of_bytes(hi: u8, lo: u8)
    ensures
        (hi * 256 + lo) / 256 == hi,
        (hi * 256 + lo) % 256 == lo,
        (hi * 256 + lo) / 16 * 16 / 256 == hi,
        (hi * 256 + lo) / 16 * 16 % 256 == lo / 16 * 16,
{
}

/// POP AF followed by PUSH AF, on a stack in work RAM or high RAM, leaves
/// the stack pointer where it was and memory as it was but for the byte
/// that was popped into F, of which the low nibble is now zero.
#[verifier::rlimit(50)]
pub proof fn lemma_pop_push_af(cpu: Cpu, bus: BusView)
    requires
        bus.wf(),
        stack_in_ram(cpu.sp),
    ensures
        ({
            let popped = pop_spec(cpu, bus, Operands::AF);
            let pushed = push_spec(popped, bus, Operands::AF);
            &&& pushed.0.sp == cpu.sp
            &&& pushed.0.f % 16 == 0
            &&& pushed.0.f == bus.read(cpu.sp) / 16 * 16
            &&& pushed.0.a == bus.read(wrap16(cpu.sp + 1))
            &&& pushed.1 == bus.write(cpu.sp, (bus.read(cpu.sp) / 16 * 16) as u8)
        }),
{
    reveal(pop_spec);
    reveal(push_spec);
    let hi = bus.read(wrap16(cpu.sp + 1));
    let lo = bus.read(cpu.sp);
    lemma_word_of_bytes(hi, lo);
    let popped = pop_spec(cpu, bus, Operands::AF);
    assert(popped.a == hi);
    assert(popped.f == lo / 16 * 16);
    assert(popped.sp == cpu.sp + 2);
    lemma_word_of_bytes(popped.a, popped.f);
    assert(wrap16(popped.sp - 1) == cpu.sp + 1);
    assert(wrap16(popped.sp - 2) == cpu.sp);
    lemma_write_back_is_identity(bus, (cpu.sp + 1) as u16);
}

/// Naming an address in memory passes over exactly the bytes that the
/// operand takes behind the opcode.
pub proof fn lemma_address_advances(cpu: Cpu, bus: BusView, operand: Operands)
    requires
        operand.is_address(),
    ensures
        loads::operand_address(cpu, bus, operand).0.pc == wrap16(cpu.pc + operand.encoded_length()),
{
}

/// An eight-bit load passes over exactly the bytes that its operands take
/// behind the opcode.
pub proof fn lemma_load8_advances(cpu: Cpu, bus: BusView, operand1: Operands, operand2: Operands)
    requires
        operand1.is_load_target(),
        operand2.is_load_source(),
    ensures
        loads::load8_spec(cpu, bus, operand1, operand2).0.pc == wrap16(
            cpu.pc + operand1.encoded_length() + operand2.encoded_length(),
        ),
{
    reveal(loads::load8_spec);
    let source = loads::load_source(cpu, bus, operand2);
    if operand2.is_address() {
        lemma_address_advances(cpu, bus, operand2);
    }
    assert(source.0.pc == wrap16(cpu.pc + operand2.encoded_length()));
    if operand1.is_address() {
        lemma_address_advances(source.0, bus, operand1);
    }
}

/// A sixteen-bit load passes over exactly the bytes that its operands take
/// behind the opcode.
pub proof fn lemma_load16_advances(cpu: Cpu, bus: BusView, operand1: Operands, operand2: Operands)
    requires
        loads::is_wide_target(operand1),
        loads::is_wide_source(operand2),
    ensures
        loads::load16_spec(cpu, bus, operand1, operand2).0.pc == wrap16(
            cpu.pc + operand1.encoded_length() + operand2.encoded_length(),
        ),
{
    reveal(loads::load16_spec);
    let source = loads::load16_source(cpu, bus, operand2);
    assert(source.0.pc == wrap16(cpu.pc + operand2.encoded_length()));
}

/// The loads pass over exactly the bytes that their operands take behind
/// the opcode.
pub proof fn lemma_loads_advance(cpu: Cpu, bus: BusView, group: InstGroup, operand1: Operands, operand2: Operands)
    requires
        group.fits(operand1, operand2),
        group is Load8 || group is Load16,
    ensures
        execute_spec(cpu, bus, group, operand1, operand2).0.pc == wrap16(
            cpu.pc + operand1.encoded_length() + operand2.encoded_length(),
        ),
        execute_spec(cpu, bus, group, operand1, operand2).2,
{
    reveal(execute_spec);
    if group is Load8 {
        lemma_load8_advances(cpu, bus, operand1, operand2);
    } else {
        lemma_load16_advances(cpu, bus, operand1, operand2);
    }
}

/// The arithmetic of the accumulator with a second operand passes over
/// that operand where it follows the opcode.
#[verifier::rlimit(50)]
pub proof fn lemma_accumulator_arithmetic_advances(
    cpu: Cpu,
    bus: BusView,
    group: InstGroup,
    operand1: Operands,
    operand2: Operands,
)
    requires
        group.fits(operand1, operand2),
        group is Add8 || group is Adc || group is Sub || group is Sbc || group is And || group is Xor
            || group is Or || group is Cp,
    ensures
        execute_spec(cpu, bus, group, operand1, operand2).0.pc == wrap16(
            cpu.pc + operand1.encoded_length() + operand2.encoded_length(),
        ),
        execute_spec(cpu, bus, group, operand1, operand2).2,
{
    reveal(execute_spec);
    if group is Add8 {
        reveal(alu8::add_spec);
    } else if group is Adc {
        reveal(alu8::adc_spec);
    } else if group is Sub {
        reveal(alu8::sub_spec);
    } else if group is Sbc {
        reveal(alu8::sbc_spec);
    } else if group is And {
        reveal(alu8::and_spec);
    } else if group is Xor {
        reveal(alu8::xor_spec);
    } else if group is Or {
        reveal(alu8::or_spec);
    } else {
        reveal(alu8::cp_spec);
    }
}

/// Counting a register, a byte in memory or a register pair up or down,
/// and adding to a register pair, pass over what follows the opcode, which
/// is a byte only where the stack pointer is moved by it.
#[verifier::rlimit(50)]
pub proof fn lemma_counting_advances(cpu: Cpu, bus: BusView, group: InstGroup, operand1: Operands, operand2: Operands)
    requires
        group.fits(operand1, operand2),
        group is Inc8 || group is Dec8 || group is Add16 || group is Inc16 || group is Dec16,
    ensures
        execute_spec(cpu, bus, group, operand1, operand2).0.pc == wrap16(
            cpu.pc + operand1.encoded_length() + operand2.encoded_length(),
        ),
        execute_spec(cpu, bus, group, operand1, operand2).2,
{
    reveal(execute_spec);
    if group is Inc8 {
        reveal(alu8::inc_spec);
    } else if group is Dec8 {
        reveal(alu8::dec_spec);
    } else if group is Add16 {
        reveal(alu16::add_spec);
        reveal(alu16::add_sp_i8_spec);
    } else if group is Inc16 {
        reveal(alu16::inc_spec);
    } else {
        reveal(alu16::dec_spec);
    }
}

/// DAA, CPL, SCF and CCF leave the program counter behind the opcode.
pub proof fn lemma_adjustments_advance(cpu: Cpu, bus: BusView, group: InstGroup, operand1: Operands, operand2: Operands)
    requires
        group.fits(operand1, operand2),
        group is Daa || group is Cpl || group is Scf || group is Ccf,
    ensures
        execute_spec(cpu, bus, group, operand1, operand2).0.pc == wrap16(
            cpu.pc + operand1.encoded_length() + operand2.encoded_length(),
        ),
        execute_spec(cpu, bus, group, operand1, operand2).2,
{
    reveal(execute_spec);
    reveal(alu8::daa_spec);
    reveal(alu8::cpl_spec);
    reveal(alu8::scf_spec);
    reveal(alu8::ccf_spec);
}

/// The arithmetic passes over exactly the bytes that its operands take
/// behind the opcode.
pub proof fn lemma_arithmetic_advances(
    cpu: Cpu,
    bus: BusView,
    group: InstGroup,
    operand1: Operands,
    operand2: Operands,
)
    requires
        group.fits(operand1, operand2),
        group is Add8 || group is Adc || group is Sub || group is Sbc || group is And || group is Xor
            || group is Or || group is Cp || group is Inc8 || group is Dec8 || group is Add16 || group is Inc16
            || group is Dec16 || group is Daa || group is Cpl || group is Scf || group is Ccf,
    ensures
        execute_spec(cpu, bus, group, operand1, operand2).0.pc == wrap16(
            cpu.pc + operand1.encoded_length() + operand2.encoded_length(),
        ),
        execute_spec(cpu, bus, group, operand1, operand2).2,
{
    if group is Daa || group is Cpl || group is Scf || group is Ccf {
        lemma_adjustments_advance(cpu, bus, group, operand1, operand2);
    } else if group is Inc8 || group is Dec8 || group is Add16 || group is Inc16 || group is Dec16 {
        lemma_counting_advances(cpu, bus, group, operand1, operand2);
    } else {
        lemma_accumulator_arithmetic_advances(cpu, bus, group, operand1, operand2);
    }
}

/// The rotations, the shifts and the instructions on single bits leave the
/// program counter behind the opcode.
#[verifier::rlimit(50)]
pub proof fn lemma_bit_instructions_advance(
    cpu: Cpu,
    bus: BusView,
    group: InstGroup,
    operand1: Operands,
    operand2: Operands,
)
    requires
        group.fits(operand1, operand2),
        group is Rlca || group is Rla || group is Rrca || group is Rra || group is Rlc || group is Rrc
            || group is Rl || group is Rr || group is Sla || group is Sra || group is Swap || group is Srl
            || group is Bit || group is Res || group is SetBit,
    ensures
        execute_spec(cpu, bus, group, operand1, operand2).0.pc == cpu.pc,
        operand1.encoded_length() + operand2.encoded_length() == 0,
        execute_spec(cpu, bus, group, operand1, operand2).2,
{
    reveal(execute_spec);
    if group is Rlca {
        reveal(rotates::rlca_spec);
    } else if group is Rla {
        reveal(rotates::rla_spec);
    } else if group is Rrca {
        reveal(rotates::rrca_spec);
    } else if group is Rra {
        reveal(rotates::rra_spec);
    } else if group is Rlc {
        reveal(rotates::rlc_spec);
    } else if group is Rrc {
        reveal(rotates::rrc_spec);
    } else if group is Rl {
        reveal(rotates::rl_spec);
    } else if group is Rr {
        reveal(rotates::rr_spec);
    } else if group is Sla {
        reveal(rotates::sla_spec);
    } else if group is Sra {
        reveal(rotates::sra_spec);
    } else if group is Srl {
        reveal(rotates::srl_spec);
    } else if group is Swap {
        reveal(misc::swap_spec);
    } else if group is Bit {
        reveal(bits::bit_spec);
    } else if group is Res {
        reveal(bits::res_spec);
    } else {
        reveal(bits::set_spec);
    }
}

/// The instructions on the stack and those that only switch something
/// leave the program counter behind the opcode, and a jump, call or return
/// whose condition does not hold passes over its target and does nothing
/// else.
#[verifier::rlimit(50)]
pub proof fn lemma_untaken_advances(cpu: Cpu, bus: BusView, group: InstGroup, operand1: Operands, operand2: Operands)
    requires
        group.fits(operand1, operand2),
        group is Nop || group is Stop || group is Prefix || group is Halt || group is Di || group is Ei
            || group is Push || group is Pop || (group.is_conditional() && !cpu.condition(operand1)),
    ensures
        execute_spec(cpu, bus, group, operand1, operand2).0.pc == wrap16(
            cpu.pc + operand1.encoded_length() + operand2.encoded_length(),
        ),
        execute_spec(cpu, bus, group, operand1, operand2).2 == !group.is_conditional(),
        group.is_conditional() ==> execute_spec(cpu, bus, group, operand1, operand2).0 == (Cpu {
            pc: wrap16(cpu.pc + operand1.encoded_length() + operand2.encoded_length()),
            ..cpu
        }) && execute_spec(cpu, bus, group, operand1, operand2).1 == bus,
{
    reveal(execute_spec);
    if group is Push {
        reveal(stack::push_spec);
    } else if group is Pop {
        reveal(stack::pop_spec);
    } else if group is CallCc {
        reveal(stack::call_cc_spec);
    } else if group is RetCc {
        reveal(stack::ret_cc_spec);
    } else if group is JpCc {
        reveal(jumps::jpccnn_spec);
    } else if group is JrCc {
        reveal(jumps::jrccn_spec);
    }
}

/// Whether the instruction `group`, run from the state `cpu`, can set the
/// program counter to something other than the address behind it: it is a
/// jump, call or return, and its condition, if it has one, holds.
pub open spec fn jumps_away(cpu: Cpu, group: InstGroup, operand1: Operands) -> bool {
    group.is_jump() && (group.is_conditional() ==> cpu.condition(operand1))
}

/// An instruction that does not jump away passes over exactly the bytes
/// that its operands take behind the opcode, and the shorter of its two
/// timings applies exactly if it has a condition.
pub proof fn lemma_execute_advances(cpu: Cpu, bus: BusView, group: InstGroup, operand1: Operands, operand2: Operands)
    requires
        group.fits(operand1, operand2),
        !jumps_away(cpu, group, operand1),
    ensures
        execute_spec(cpu, bus, group, operand1, operand2).0.pc == wrap16(
            cpu.pc + operand1.encoded_length() + operand2.encoded_length(),
        ),
        execute_spec(cpu, bus, group, operand1, operand2).2 == !group.is_conditional(),
{
    if group is Load8 || group is Load16 {
        lemma_loads_advance(cpu, bus, group, operand1, operand2);
    } else if group is Rlca || group is Rla || group is Rrca || group is Rra || group is Rlc || group is Rrc
        || group is Rl || group is Rr || group is Sla || group is Sra || group is Swap || group is Srl
        || group is Bit || group is Res || group is SetBit {
        lemma_bit_instructions_advance(cpu, bus, group, operand1, operand2);
    } else if group is Nop || group is Stop || group is Prefix || group is Halt || group is Di || group is Ei
        || group is Push || group is Pop || group.is_conditional() {
        lemma_untaken_advances(cpu, bus, group, operand1, operand2);
    } else {
        lemma_arithmetic_advances(cpu, bus, group, operand1, operand2);
    }
}

/// The fetch passes over the opcode, and over the prefix where there is
/// one, changes nothing else of the processor, and finds an entry of the
/// tables, whose length is that of the opcode, the prefix and the
/// operands together.
pub proof fn lemma_fetch_advances(cpu: Cpu, bus: BusView)
    requires
        fetched(cpu, bus, true).1 is Some,
    ensures
        ({
            let fetch = fetched(cpu, bus, true);
            let opcode = fetch.1->Some_0;
            let opcodes: int = if bus.read(cpu.pc) == 0xCB { 2 } else { 1 };
            &&& fetch.0 == (Cpu { pc: wrap16(cpu.pc + opcodes), ..cpu })
            &&& opcode.wf()
            &&& opcode.group.fits(slot(opcode.operand1), slot(opcode.operand2))
            &&& opcode.length == opcodes + slot(opcode.operand1).encoded_length() + slot(
                opcode.operand2,
            ).encoded_length()
            &&& 1 <= opcode.length <= 3
            &&& 4 <= opcode.cycle[0] <= 24
            &&& opcode.group.is_conditional() ==> 4 <= opcode.cycle[1] <= 24
        }),
{
    let byte = bus.read(cpu.pc);
    if byte == 0xCB {
        lemma_tables_are_sound(cpu.fetch_byte(bus).0.fetch_byte(bus).1);
    } else {
        lemma_tables_are_sound(byte);
    }
}

/// An instruction that does not jump away leaves the program counter
/// behind itself: executing it advances the program counter by the length
/// that the tables declare for it, and costs what they declare. That holds
/// of a jump, call or return with a condition as well, where the condition
/// does not hold; the cost is then the second of the two declared.
#[verifier::rlimit(50)]
pub proof fn lemma_run_advances_by_length(cpu: Cpu, bus: BusView)
    requires
        fetched(cpu, bus, true).1 is Some,
        ({
            let opcode = fetched(cpu, bus, true).1->Some_0;
            !jumps_away(fetched(cpu, bus, true).0, opcode.group, slot(opcode.operand1))
        }),
    ensures
        ({
            let opcode = fetched(cpu, bus, true).1->Some_0;
            let ran = run_spec(cpu, bus, true);
            &&& 1 <= opcode.length <= 3
            &&& ran.0.pc == wrap16(cpu.pc + opcode.length)
            &&& ran.2 == (if opcode.group.is_conditional() { opcode.cycle[1] } else { opcode.cycle[0] })
            &&& 4 <= ran.2 <= 24
            &&& ran.0.f % 16 == 0
        }),
{
    let fetch = fetched(cpu, bus, true);
    let opcode = fetch.1->Some_0;
    let start = Cpu { i_enable_flag: false, ..fetch.0 };
    let on = if cpu.i_enable_flag {
        BusView { interrupt: super::interrupt::InterruptState { ime: true, ..bus.interrupt }, ..bus }
    } else {
        bus
    };
    lemma_fetch_advances(cpu, bus);
    assert(start.condition(slot(opcode.operand1)) == fetch.0.condition(slot(opcode.operand1)));
    lemma_execute_advances(start, on, opcode.group, slot(opcode.operand1), slot(opcode.operand2));
}

/// Taken modulo a power of two, a number is its low bits.
proof fn lemma_modulo_is_mask(index: u32)
    by (bit_vector)
    ensures
        index % 0x8000 == index & 0x7fff,
        index % 0x10000 == index & 0xffff,
        index % 0x20000 == index & 0x1ffff,
        index % 0x40000 == index & 0x3ffff,
        index % 0x80000 == index & 0x7ffff,
        index % 0x100000 == index & 0xfffff,
        index % 0x200000 == index & 0x1fffff,
        index % 0x400000 == index & 0x3fffff,
        index % 0x800000 == index & 0x7fffff,
{
}

/// The sizes that the images of cartridges have: 32 KiB doubled up to
/// eight times.
pub open spec fn is_cartridge_size(size: u32) -> bool {
    size == 0x8000 || size == 0x10000 || size == 0x20000 || size == 0x40000 || size == 0x80000 || size == 0x100000 || size == 0x200000 || size == 0x400000 || size == 0x800000
}

/// Where the image of a cartridge has one of the sizes that such images
/// have, a bank beyond the image is brought back into it by masking: the
/// place of a byte of the switchable window is its place in the selected
/// bank, masked to the size of the image less one.
pub proof fn lemma_bank_wraps_by_mask(first: Mbc1View, fifth: Mbc5View, address: u16, size: u32)
    requires
        0x4000 <= address < 0x8000,
        is_cartridge_size(size),
    ensures
        first.rom.len() == size ==> first.rom_index(address) == (((address - 0x4000) + first.rom_bank
            * 0x4000) as u32) & ((size - 1) as u32),
        fifth.rom.len() == size && fifth.rom_bank < 512 ==> fifth.rom_index(address) == ((0x4000
            * fifth.rom_bank + (address - 0x4000)) as u32) & ((size - 1) as u32),
{
    lemma_modulo_is_mask(((address - 0x4000) + first.rom_bank * 0x4000) as u32);
    if fifth.rom_bank < 512 {
        lemma_modulo_is_mask((0x4000 * fifth.rom_bank + (address - 0x4000)) as u32);
    }
}

/// Taking from the accumulator what was added to it, with the same carry,
/// gives the accumulator back.
pub proof fn lemma_add_then_subtract(cpu: Cpu, rhs: u8, carry: bool)
    ensures
        ({
            let c: int = if carry { 1 } else { 0 };
            alu8::with_difference(alu8::with_sum(cpu, rhs, c), rhs, c).a == cpu.a
        }),
{
}

/// A comparison leaves the accumulator and tells how it stands to the
/// operand: Z that they are equal, C that the accumulator is the smaller,
/// H that its low nibble is the smaller; N is set.
pub proof fn lemma_compare_tells_the_order(cpu: Cpu, rhs: u8)
    ensures
        alu8::with_comparison(cpu, rhs, 0).a == cpu.a,
        alu8::with_comparison(cpu, rhs, 0).flag_z() == (cpu.a == rhs),
        alu8::with_comparison(cpu, rhs, 0).flag_c() == (cpu.a < rhs),
        alu8::with_comparison(cpu, rhs, 0).flag_h() == (cpu.a % 16 < rhs % 16),
        alu8::with_comparison(cpu, rhs, 0).flag_n(),
{
}

/// An addition sets C exactly when the sum does not fit a byte, and the
/// accumulator then holds the sum less 256.
pub proof fn lemma_sum_carries(cpu: Cpu, rhs: u8, carry: bool)
    ensures
        ({
            let c: int = if carry { 1 } else { 0 };
            let sum = alu8::with_sum(cpu, rhs, c);
            &&& sum.flag_c() == (cpu.a + rhs + c > 255)
            &&& sum.a == (if cpu.a + rhs + c > 255 { cpu.a + rhs + c - 256 } else { cpu.a + rhs + c })
            &&& sum.flag_z() == (sum.a == 0)
            &&& !sum.flag_n()
        }),
{
}

/// Counting a byte up and then down leaves it as it was.
pub proof fn lemma_count_up_then_down(value: u8)
    ensures
        crate::emulator::cpu::wrap8(crate::emulator::cpu::wrap8(value + 1) - 1) == value,
        crate::emulator::cpu::wrap8(crate::emulator::cpu::wrap8(value - 1) + 1) == value,
{
}

/// INC followed by DEC of the same register leaves the register as it
/// was, the program counter and C untouched, and sets Z exactly if the
/// register is zero.
#[verifier::rlimit(50)]
pub proof fn lemma_inc_then_dec(cpu: Cpu, bus: BusView, operand: Operands)
    requires
        operand.is_register(),
    ensures
        ({
            let up = alu8::inc_spec(cpu, bus, operand);
            let down = alu8::dec_spec(up.0, up.1, operand);
            &&& down.0.register(operand) == cpu.register(operand)
            &&& down.1 == bus
            &&& down.0.flag_z() == (cpu.register(operand) == 0)
            &&& down.0.flag_c() == cpu.flag_c()
            &&& down.0.pc == cpu.pc
        }),
{
    reveal(alu8::inc_spec);
    reveal(alu8::dec_spec);
    let value = cpu.register(operand);
    lemma_count_up_then_down(value);
    let up = alu8::inc_spec(cpu, bus, operand);
    assert(up.1 == bus);
    assert(up.0.register(operand) == crate::emulator::cpu::wrap8(value + 1));
    assert(up.0.flag_c() == cpu.flag_c());
    assert(up.0.pc == cpu.pc);
}

/// Exchanging the nibbles of a byte twice gives the byte back.
pub proof fn lemma_swap_twice(value: u8)
    ensures
        misc::swapped(misc::swapped(value)) == value,
{
}

/// Turning a byte left and then right with the bit that fell out, or right
/// and then left, gives the byte back.
pub proof fn lemma_turn_left_then_right(value: u8)
    ensures
        rotates::shifted_right(
            rotates::shifted_left(value, value as int / 128),
            rotates::shifted_left(value, value as int / 128) as int % 2,
        ) == value,
        rotates::shifted_left(
            rotates::shifted_right(value, value as int % 2),
            rotates::shifted_right(value, value as int % 2) as int / 128,
        ) == value,
{
    let left = rotates::shifted_left(value, value as int / 128);
    assert(left == (if value >= 128 { value * 2 - 255 } else { value * 2 }));
    let right = rotates::shifted_right(value, value as int % 2);
    assert(right == value / 2 + (value % 2) * 128);
}

/// RLCA followed by RRCA, and RRCA followed by RLCA, leave the accumulator
/// as it was.
pub proof fn lemma_rlca_then_rrca(cpu: Cpu)
    ensures
        rotates::rrca_spec(rotates::rlca_spec(cpu)).a == cpu.a,
        rotates::rlca_spec(rotates::rrca_spec(cpu)).a == cpu.a,
{
    reveal(rotates::rrca_spec);
    reveal(rotates::rlca_spec);
    lemma_turn_left_then_right(cpu.a);
}

/// CPL twice leaves the accumulator as it was, and CCF twice the flag C.
pub proof fn lemma_cpl_twice(cpu: Cpu)
    ensures
        alu8::cpl_spec(alu8::cpl_spec(cpu)).a == cpu.a,
        alu8::ccf_spec(alu8::ccf_spec(cpu)).flag_c() == cpu.flag_c(),
{
    reveal(alu8::cpl_spec);
    reveal(alu8::ccf_spec);
}

/// What was pushed on a stack in work RAM or high RAM is what is popped:
/// PUSH followed by POP of the same register pair leaves the processor as
/// it was.
#[verifier::rlimit(50)]
pub proof fn lemma_push_then_pop(cpu: Cpu, bus: BusView, operand: Operands)
    requires
        bus.wf(),
        operand is BC || operand is DE || operand is HL,
        2 <= cpu.sp,
        stack_in_ram((cpu.sp - 2) as u16),
    ensures
        ({
            let pushed = stack::push_spec(cpu, bus, operand);
            &&& pushed.0.sp == cpu.sp - 2
            &&& pushed.1.wf()
            &&& stack::pop_spec(pushed.0, pushed.1, operand) == cpu
        }),
{
    reveal(stack::push_spec);
    reveal(stack::pop_spec);
    let value = cpu.wide_register(operand);
    let hi = (value / 256) as u8;
    let lo = (value % 256) as u8;
    let upper = (cpu.sp - 1) as u16;
    let lower = (cpu.sp - 2) as u16;
    let first = bus.write(upper, hi);
    lemma_memory_round_trip(bus, upper, hi, lower);
    lemma_memory_round_trip(first, lower, lo, upper);
    lemma_word_of_bytes(hi, lo);
    lemma_word_of_bytes(cpu.b, cpu.c);
    lemma_word_of_bytes(cpu.d, cpu.e);
    lemma_word_of_bytes(cpu.h, cpu.l);
}

/// A call, on a stack in work RAM or high RAM, followed by a return comes
/// back to the instruction behind the call, with the stack pointer where
/// it was.
#[verifier::rlimit(50)]
pub proof fn lemma_call_then_ret(cpu: Cpu, bus: BusView)
    requires
        bus.wf(),
        2 <= cpu.sp,
        stack_in_ram((cpu.sp - 2) as u16),
    ensures
        ({
            let called = stack::call_spec(cpu, bus);
            let back = stack::ret_spec(called.0, called.1);
            &&& called.0.pc == cpu.fetch_short(bus).1
            &&& back.pc == wrap16(cpu.pc + 2)
            &&& back.sp == cpu.sp
        }),
{
    reveal(stack::call_spec);
    reveal(stack::ret_spec);
    let from = wrap16(cpu.pc + 2);
    let hi = (from / 256) as u8;
    let lo = (from % 256) as u8;
    let upper = (cpu.sp - 1) as u16;
    let lower = (cpu.sp - 2) as u16;
    let first = bus.write(upper, hi);
    lemma_memory_round_trip(bus, upper, hi, lower);
    lemma_memory_round_trip(first, lower, lo, upper);
    lemma_word_of_bytes(hi, lo);
}

/// EI switches interrupts on one instruction late: EI itself only sets a
/// latch, and the instruction that runs while the latch is set clears the
/// latch and finds the master enable set, so that after a NOP it is set,
/// and after DI it is clear again.
pub proof fn lemma_ei_is_delayed(cpu: Cpu, bus: BusView)
    requires
        fetched(cpu, bus, true).1 is Some,
    ensures
        ({
            let opcode = fetched(cpu, bus, true).1->Some_0;
            let ran = run_spec(cpu, bus, true);
            &&& opcode.group is Ei ==> ran.0.i_enable_flag && ran.1.interrupt.ime == (bus.interrupt.ime
                || cpu.i_enable_flag)
            &&& opcode.group is Nop ==> !ran.0.i_enable_flag && ran.1.interrupt.ime == (bus.interrupt.ime
                || cpu.i_enable_flag)
            &&& opcode.group is Di ==> !ran.0.i_enable_flag && !ran.1.interrupt.ime
        }),
{
    reveal(execute_spec);
}

} // verus!
