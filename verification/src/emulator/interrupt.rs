use vstd::prelude::*;

verus! {

pub const ADDRESS_IE: u16 = 0xFFFF;

pub const ADDRESS_IF: u16 = 0xFF0F;

pub const INT_JOYPAD: u8 = 4;

pub const INT_SERIAL: u8 = 3;

pub const INT_TIMER: u8 = 2;

pub const INT_LCD: u8 = 1;

pub const INT_VBLANK: u8 = 0;

/// The interrupt controller: the enable mask, the request flags and the
/// processor's master enable.
#[derive(Debug, Clone, Copy)]
pub struct InterruptState {
    pub ime: bool,
    pub interrupt_enable: u8,
    pub interrupt_flag: u8,
}

/// The sources that are both enabled and requested, one bit each; only the
/// five low bits stand for a source.
pub open spec fn pending_sources(s: InterruptState) -> u8 {
    s.interrupt_enable & s.interrupt_flag & 0x1F
}

/// Whether source `interrupt` is both enabled and requested.
pub open spec fn source_requested(s: InterruptState, interrupt: u8) -> bool {
    (s.interrupt_flag >> interrupt) & (s.interrupt_enable >> interrupt) & 1 == 1
}

/// The controller after source `interrupt` has been requested.
pub open spec fn with_request(s: InterruptState, interrupt: u8) -> InterruptState {
    InterruptState { interrupt_flag: s.interrupt_flag | (1u8 << interrupt), ..s }
}

/// The controller after the request of source `interrupt` has been served.
pub open spec fn with_acknowledge(s: InterruptState, interrupt: u8) -> InterruptState {
    InterruptState { interrupt_flag: s.interrupt_flag & !(1u8 << interrupt), ..s }
}

impl InterruptState {
    pub fn new() -> (s: InterruptState)
        ensures
            s == (InterruptState { ime: false, interrupt_enable: 0, interrupt_flag: 0 }),
    {
        InterruptState { ime: false, interrupt_enable: 0, interrupt_flag: 0 }
    }

    pub fn is_requested(&self, interrupt: u8) -> (r: bool)
        requires
            interrupt < 8,
        ensures
            r == source_requested(*self, interrupt),
    {
        (self.interrupt_flag >> interrupt) & (self.interrupt_enable >> interrupt) & 1 == 1
    }

    pub fn have_pending(&self) -> (r: bool)
        ensures
            r == (pending_sources(*self) != 0),
    {
        self.interrupt_enable & self.interrupt_flag & 0x1F != 0
    }

    /// Raises the request flag of source `interrupt`.
    pub fn request(&mut self, interrupt: u8)
        requires
            interrupt < 8,
        ensures
            *final(self) == with_request(*old(self), interrupt),
    {
        self.interrupt_flag = self.interrupt_flag | (1u8 << interrupt);
    }
}

impl Default for InterruptState {
    fn default() -> (s: InterruptState)
        ensures
            s == (InterruptState { ime: false, interrupt_enable: 0, interrupt_flag: 0 }),
    {
        InterruptState::new()
    }
}

/// A source is requested exactly when its bit is among the pending ones, and
/// something is pending exactly when one of the five sources is requested.
pub proof fn lemma_pending_is_some_source(s: InterruptState)
    ensures
        forall|i: u8| i < 5 ==> (#[trigger] source_requested(s, i) <==> (pending_sources(s) >> i) & 1 == 1),
        pending_sources(s) != 0 <==> (source_requested(s, INT_VBLANK) || source_requested(s, INT_LCD)
            || source_requested(s, INT_TIMER) || source_requested(s, INT_SERIAL)
            || source_requested(s, INT_JOYPAD)),
{
    let e = s.interrupt_enable;
    let f = s.interrupt_flag;
    assert(forall|i: u8| i < 5 ==> ((((f >> i) & (e >> i) & 1) == 1) <==> (((e & f & 0x1F) >> i) & 1) == 1))
        by (bit_vector);
    assert((e & f & 0x1F) != 0 <==> (((f >> 0u8) & (e >> 0u8) & 1) == 1 || ((f >> 1u8) & (e >> 1u8) & 1) == 1
        || ((f >> 2u8) & (e >> 2u8) & 1) == 1 || ((f >> 3u8) & (e >> 3u8) & 1) == 1
        || ((f >> 4u8) & (e >> 4u8) & 1) == 1)) by (bit_vector);
}

/// Requesting a source makes it show in the flags and leaves the other
/// sources, the enable mask and the master enable as they were.
pub proof fn lemma_request_sets_one_flag(s: InterruptState, interrupt: u8)
    requires
        interrupt < 8,
    ensures
        (with_request(s, interrupt).interrupt_flag >> interrupt) & 1 == 1,
        forall|j: u8| j < 8 && j != interrupt ==> ((#[trigger] (with_request(s, interrupt).interrupt_flag >> j)) & 1)
            == ((s.interrupt_flag >> j) & 1),
        with_request(s, interrupt).interrupt_enable == s.interrupt_enable,
        with_request(s, interrupt).ime == s.ime,
{
    let f = s.interrupt_flag;
    assert(interrupt < 8 ==> (((f | (1u8 << interrupt)) >> interrupt) & 1) == 1) by (bit_vector);
    assert(forall|j: u8| j < 8 && interrupt < 8 && j != interrupt ==> ((#[trigger] ((f | (1u8 << interrupt)) >> j)) & 1) == ((f >> j) & 1))
        by (bit_vector);
}

} // verus!
