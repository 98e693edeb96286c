use vstd::prelude::*;
use super::operand::Operands;
use crate::emulator::bus::{Bus, BusView};
use crate::emulator::cpu::Cpu;
use crate::emulator::interrupt::InterruptState;

verus! {

/// PUSH: the register pair goes on the stack.
#[verifier::opaque]
pub open spec fn push_spec(cpu: Cpu, bus: BusView, operand: Operands) -> (Cpu, BusView) {
    cpu.pushed(bus, cpu.wide_register(operand))
}

/// POP: the register pair comes off the stack. Of what comes off for F,
/// the low nibble is dropped.
#[verifier::opaque]
pub open spec fn pop_spec(cpu: Cpu, bus: BusView, operand: Operands) -> Cpu {
    let popped = cpu.popped(bus);
    popped.0.with_wide_register(operand, popped.1)
}

/// CALL u16: the address behind the instruction goes on the stack, and the
/// program counter is the word that follows the opcode.
#[verifier::opaque]
pub open spec fn call_spec(cpu: Cpu, bus: BusView) -> (Cpu, BusView) {
    let fetched = cpu.fetch_short(bus);
    let pushed = fetched.0.pushed(bus, fetched.0.pc);
    (Cpu { pc: fetched.1, ..pushed.0 }, pushed.1)
}

/// CALL cc,u16: the call is made if the condition holds, and the target is
/// passed over if not.
#[verifier::opaque]
pub open spec fn call_cc_spec(cpu: Cpu, bus: BusView, operand: Operands) -> (Cpu, BusView) {
    if cpu.condition(operand) {
        call_spec(cpu, bus)
    } else {
        (cpu.fetch_short(bus).0, bus)
    }
}

/// RET: the program counter comes off the stack.
#[verifier::opaque]
pub open spec fn ret_spec(cpu: Cpu, bus: BusView) -> Cpu {
    let popped = cpu.popped(bus);
    Cpu { pc: popped.1, ..popped.0 }
}

/// RET cc.
#[verifier::opaque]
pub open spec fn ret_cc_spec(cpu: Cpu, bus: BusView, operand: Operands) -> Cpu {
    if cpu.condition(operand) {
        ret_spec(cpu, bus)
    } else {
        cpu
    }
}

/// RETI: a return that also switches interrupts on, at once.
#[verifier::opaque]
pub open spec fn reti_spec(cpu: Cpu, bus: BusView) -> (Cpu, BusView) {
    (ret_spec(cpu, bus), BusView { interrupt: InterruptState { ime: true, ..bus.interrupt }, ..bus })
}

/// RST: the program counter goes on the stack and becomes the vector.
#[verifier::opaque]
pub open spec fn rst_spec(cpu: Cpu, bus: BusView, operand: Operands) -> (Cpu, BusView) {
    let pushed = cpu.pushed(bus, cpu.pc);
    (Cpu { pc: operand.restart_address(), ..pushed.0 }, pushed.1)
}

pub fn push(cpu: &mut Cpu, bus: &mut Bus, operand: Operands)
    requires
        old(bus)@.wf(),
        operand.is_stack_pair(),
    ensures
        (*final(cpu), final(bus)@) == push_spec(*old(cpu), old(bus)@, operand),
        final(bus)@.wf(),
{
    proof {
        reveal(push_spec);
    }
    let src = cpu.get_wide_register(operand);
    cpu.push_word(bus, src);
}

pub fn pop(cpu: &mut Cpu, bus: &Bus, operand: Operands)
    requires
        bus@.wf(),
        operand.is_stack_pair(),
    ensures
        *final(cpu) == pop_spec(*old(cpu), bus@, operand),
{
    proof {
        reveal(pop_spec);
    }
    let res = cpu.pop_word(bus);
    cpu.set_wide_register(operand, res);
}

pub fn call(cpu: &mut Cpu, bus: &mut Bus)
    requires
        old(bus)@.wf(),
    ensures
        (*final(cpu), final(bus)@) == call_spec(*old(cpu), old(bus)@),
        final(bus)@.wf(),
{
    proof {
        reveal(call_spec);
    }
    let new_address = cpu.next_short(bus);
    let address = cpu.pc;
    cpu.push_word(bus, address);
    cpu.pc = new_address;
}

/// Calls if the condition holds, and tells whether it did.
pub fn call_cc(cpu: &mut Cpu, bus: &mut Bus, operand: Operands) -> (taken: bool)
    requires
        old(bus)@.wf(),
        operand.is_condition() || operand is U16,
    ensures
        (*final(cpu), final(bus)@) == call_cc_spec(*old(cpu), old(bus)@, operand),
        taken == old(cpu).condition(operand),
        final(bus)@.wf(),
{
    proof {
        reveal(call_cc_spec);
    }
    let condition = cpu.test_condition(operand);
    if !condition {
        let _ = cpu.next_short(bus);
        return false;
    }
    call(cpu, bus);
    true
}

pub fn ret(cpu: &mut Cpu, bus: &Bus)
    requires
        bus@.wf(),
    ensures
        *final(cpu) == ret_spec(*old(cpu), bus@),
{
    proof {
        reveal(ret_spec);
    }
    let address = cpu.pop_word(bus);
    cpu.pc = address;
}

/// Returns and switches interrupts on; tells, as the conditional returns
/// do, whether the shorter of two timings applies, which here is never.
pub fn reti(cpu: &mut Cpu, bus: &mut Bus) -> (r: bool)
    requires
        old(bus)@.wf(),
    ensures
        (*final(cpu), final(bus)@) == reti_spec(*old(cpu), old(bus)@),
        final(bus)@.wf(),
        !r,
{
    proof {
        reveal(reti_spec);
    }
    ret(cpu, bus);
    bus.interrupt.ime = true;
    false
}

/// Returns if the condition holds, and tells whether it did.
pub fn ret_cc(cpu: &mut Cpu, bus: &Bus, operand: Operands) -> (taken: bool)
    requires
        bus@.wf(),
    ensures
        *final(cpu) == ret_cc_spec(*old(cpu), bus@, operand),
        taken == old(cpu).condition(operand),
{
    proof {
        reveal(ret_cc_spec);
    }
    let condition = cpu.test_condition(operand);
    if !condition {
        return false;
    }
    ret(cpu, bus);
    true
}

/// Restarts at the vector that `operand` names; tells, as the conditional
/// calls do, whether the shorter of two timings applies, which here is
/// never.
pub fn rst(cpu: &mut Cpu, bus: &mut Bus, operand: Operands) -> (r: bool)
    requires
        old(bus)@.wf(),
        operand.is_restart(),
    ensures
        (*final(cpu), final(bus)@) == rst_spec(*old(cpu), old(bus)@, operand),
        final(bus)@.wf(),
        !r,
{
    proof {
        reveal(rst_spec);
    }
    let address: u16 = match operand {
        Operands::H28 => 0x28,
        Operands::H00 => 0x00,
        Operands::H08 => 0x08,
        Operands::H20 => 0x20,
        Operands::H18 => 0x18,
        Operands::H38 => 0x38,
        Operands::H30 => 0x30,
        _ => 0x10,
    };
    let from = cpu.pc;
    cpu.push_word(bus, from);
    cpu.pc = address;
    false
}

} // verus!
