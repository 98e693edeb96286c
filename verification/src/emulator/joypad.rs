use vstd::prelude::*;
use super::interrupt::{with_request, InterruptState, INT_JOYPAD};

verus! {

pub const JOYPAD: u16 = 0xFF00;

/// The eight buttons (`true` is pressed) and the latched JOYP word.
///
/// In `joypad_byte` bits 4 and 5 are the group selects that the guest wrote
/// (0 selects) and bits 0 to 3 the lines of the selected groups (0 is
/// pressed). `old_joypad_byte` is the word as it stood before the last
/// refresh.
#[derive(Debug, Clone, Copy)]
pub struct Joypad {
    pub start: bool,
    pub select: bool,
    pub btn_b: bool,
    pub btn_a: bool,
    pub down: bool,
    pub up: bool,
    pub left: bool,
    pub right: bool,
    pub old_joypad_byte: u8,
    pub joypad_byte: u8,
}

/// Four input lines as a nibble: a line is low while its button is held.
pub open spec fn line_nibble(bit3: bool, bit2: bool, bit1: bool, bit0: bool) -> u8 {
    ((if bit3 { 0int } else { 8 }) + (if bit2 { 0int } else { 4 }) + (if bit1 { 0int } else { 2 }) + (if bit0 {
        0int
    } else {
        1
    })) as u8
}

/// The lines of the action buttons: Start, Select, B, A from bit 3 down.
pub open spec fn button_lines(j: Joypad) -> u8 {
    line_nibble(j.start, j.select, j.btn_b, j.btn_a)
}

/// The lines of the direction pad: Down, Up, Left, Right from bit 3 down.
pub open spec fn direction_lines(j: Joypad) -> u8 {
    line_nibble(j.down, j.up, j.left, j.right)
}

/// The two group selects of a JOYP word, in place (bits 4 and 5).
pub open spec fn select_bits(word: u8) -> u8 {
    ((word / 16) % 4 * 16) as u8
}

/// The four lines as the guest sees them: the AND of the groups whose select
/// bit is 0, and all high when none is selected.
pub open spec fn selected_lines(j: Joypad) -> u8 {
    let buttons = if (j.joypad_byte / 32) % 2 == 0 { button_lines(j) } else { 0x0Fu8 };
    let directions = if (j.joypad_byte / 16) % 2 == 0 { direction_lines(j) } else { 0x0Fu8 };
    buttons & directions
}

/// The JOYP word after a refresh: the selects as written, the lines as they
/// now are, the two high bits clear.
pub open spec fn refreshed_word(j: Joypad) -> u8 {
    select_bits(j.joypad_byte) | selected_lines(j)
}

/// Whether a line that was high in `before` is low in `after`.
pub open spec fn line_fell(before: u8, after: u8) -> bool {
    before & !after & 0x0F != 0
}

/// The joypad and the interrupt flags after a refresh.
pub open spec fn joypad_refresh(j: Joypad, i: InterruptState) -> (Joypad, InterruptState) {
    let word = refreshed_word(j);
    (
        Joypad { old_joypad_byte: word, joypad_byte: word, ..j },
        if line_fell(j.joypad_byte, word) { with_request(i, INT_JOYPAD) } else { i },
    )
}

/// The joypad after the guest has written `value` to JOYP: only the two
/// select bits are taken.
pub open spec fn joypad_write(j: Joypad, value: u8) -> Joypad {
    Joypad { joypad_byte: (j.joypad_byte & !0x30u8) | (value & 0x30u8), ..j }
}

/// JOYP as the guest reads it: the two high bits always read as 1.
pub open spec fn joypad_read(j: Joypad) -> u8 {
    j.joypad_byte | 0xC0u8
}

/// The joypad with the buttons as given and the JOYP word untouched.
pub open spec fn joypad_with_buttons(
    j: Joypad,
    start: bool,
    select: bool,
    a: bool,
    b: bool,
    up: bool,
    down: bool,
    left: bool,
    right: bool,
) -> Joypad {
    Joypad { start, select, btn_a: a, btn_b: b, up, down, left, right, ..j }
}

/// The joypad at power-on: nothing held, the word all zero.
pub open spec fn joypad_idle() -> Joypad {
    Joypad {
        start: false,
        select: false,
        btn_b: false,
        btn_a: false,
        down: false,
        up: false,
        left: false,
        right: false,
        old_joypad_byte: 0,
        joypad_byte: 0,
    }
}

fn lines(bit3: bool, bit2: bool, bit1: bool, bit0: bool) -> (r: u8)
    ensures
        r == line_nibble(bit3, bit2, bit1, bit0),
        r <= 15,
{
    let b3: u8 = if bit3 { 0 } else { 8 };
    let b2: u8 = if bit2 { 0 } else { 4 };
    let b1: u8 = if bit1 { 0 } else { 2 };
    let b0: u8 = if bit0 { 0 } else { 1 };
    b3 + b2 + b1 + b0
}

impl Joypad {
    pub fn new() -> (j: Joypad)
        ensures
            j == joypad_idle(),
    {
        Joypad {
            start: false,
            select: false,
            btn_b: false,
            btn_a: false,
            down: false,
            up: false,
            left: false,
            right: false,
            old_joypad_byte: 0,
            joypad_byte: 0,
        }
    }

    /// Takes the host's view of the eight buttons, `true` for a held one.
    pub fn set_buttons(
        &mut self,
        start: bool,
        select: bool,
        a: bool,
        b: bool,
        up: bool,
        down: bool,
        left: bool,
        right: bool,
    )
        ensures
            *final(self) == joypad_with_buttons(*old(self), start, select, a, b, up, down, left, right),
    {
        self.start = start;
        self.select = select;
        self.btn_a = a;
        self.btn_b = b;
        self.up = up;
        self.down = down;
        self.left = left;
        self.right = right;
    }

    /// Refreshes the four lines of the JOYP word from the buttons and requests
    /// the joypad interrupt if a line fell.
    pub fn update(&mut self, interrupt: &mut InterruptState)
        ensures
            (*final(self), *final(interrupt)) == joypad_refresh(*old(self), *old(interrupt)),
    {
        let buttons: u8 = if (self.joypad_byte / 32) % 2 == 0 {
            lines(self.start, self.select, self.btn_b, self.btn_a)
        } else {
            0x0F
        };
        let directions: u8 = if (self.joypad_byte / 16) % 2 == 0 {
            lines(self.down, self.up, self.left, self.right)
        } else {
            0x0F
        };
        let word: u8 = ((self.joypad_byte / 16) % 4 * 16) | (buttons & directions);

        if self.joypad_byte & !word & 0x0F != 0 {
            interrupt.request(INT_JOYPAD);
        }
        self.old_joypad_byte = word;
        self.joypad_byte = word;
    }

    pub fn read_joypad(&self) -> (r: u8)
        ensures
            r == joypad_read(*self),
    {
        self.joypad_byte | 0xC0
    }

    pub fn write_joypad(&mut self, value: u8)
        ensures
            *final(self) == joypad_write(*old(self), value),
    {
        let mask: u8 = 0x30;
        self.joypad_byte = (self.joypad_byte & !mask) | (value & mask);
    }
}

impl Default for Joypad {
    fn default() -> (j: Joypad)
        ensures
            j == joypad_idle(),
    {
        Joypad::new()
    }
}

/// A write to JOYP changes the two select bits to those of the value and
/// nothing else of the word.
pub proof fn lemma_joypad_write_takes_selects(j: Joypad, value: u8)
    ensures
        joypad_write(j, value).joypad_byte & 0x30 == value & 0x30,
        joypad_write(j, value).joypad_byte & !0x30u8 == j.joypad_byte & !0x30u8,
{
    let w = j.joypad_byte;
    assert(((w & !0x30u8) | (value & 0x30u8)) & 0x30 == value & 0x30 && ((w & !0x30u8) | (value & 0x30u8))
        & !0x30u8 == w & !0x30u8) by (bit_vector);
}

/// What holds of two nibbles and of a word that a group select is put
/// before.
proof fn lemma_nibbles(a: u8, b: u8, selects: u8)
    by (bit_vector)
    requires
        a <= 15,
        b <= 15,
        selects == 0x00 || selects == 0x10 || selects == 0x20 || selects == 0x30,
    ensures
        a & 0x0F == a,
        0x0F & b == b,
        a & b <= 15,
        (selects | (a & b)) == selects + (a & b),
        ((selects | (a & b)) | 0xC0) == 0xC0 + selects + (a & b),
        (a & b) & 1 == 1 <==> a & 1 == 1 && b & 1 == 1,
        (a & b) & 2 == 2 <==> a & 2 == 2 && b & 2 == 2,
        (a & b) & 4 == 4 <==> a & 4 == 4 && b & 4 == 4,
        (a & b) & 8 == 8 <==> a & 8 == 8 && b & 8 == 8,
{
}

/// What the guest reads after a refresh: the two high bits set, the two
/// selects as it wrote them, and in the low nibble the lines of the group
/// it selected with a 0: those of the action buttons, those of the
/// direction pad, all four high if it selected neither, and with both
/// selected a line low if it is low in either group.
pub proof fn lemma_joyp_shows_selected_group(j: Joypad, i: InterruptState)
    ensures
        ({
            let word = joypad_read(joypad_refresh(j, i).0);
            let buttons = (j.joypad_byte / 32) % 2 == 0;
            let directions = (j.joypad_byte / 16) % 2 == 0;
            &&& word / 64 == 3
            &&& word / 16 % 4 == j.joypad_byte / 16 % 4
            &&& buttons && !directions ==> word % 16 == button_lines(j)
            &&& !buttons && directions ==> word % 16 == direction_lines(j)
            &&& !buttons && !directions ==> word % 16 == 15
            &&& buttons && directions ==> word % 16 == button_lines(j) & direction_lines(j)
        }),
        joypad_refresh(j, i).0.old_joypad_byte == joypad_refresh(j, i).0.joypad_byte,
{
    let buttons = if (j.joypad_byte / 32) % 2 == 0 { button_lines(j) } else { 0x0Fu8 };
    let directions = if (j.joypad_byte / 16) % 2 == 0 { direction_lines(j) } else { 0x0Fu8 };
    lemma_nibbles(buttons, directions, select_bits(j.joypad_byte));
}

} // verus!
