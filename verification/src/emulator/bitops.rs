use vstd::prelude::*;

verus! {

/// Bit `n` of `byte`, as 0 or 1.
pub open spec fn bit_value(byte: u8, n: u8) -> u8 {
    (byte >> n) & 1
}

/// Whether bit `n` of `byte` is set.
pub open spec fn bit_is_set(byte: u8, n: u8) -> bool {
    bit_value(byte, n) == 1
}

/// `byte` with bit `n` set.
pub open spec fn with_bit_set(byte: u8, n: u8) -> u8 {
    byte | (1u8 << n)
}

/// `byte` with bit `n` cleared.
pub open spec fn with_bit_clear(byte: u8, n: u8) -> u8 {
    byte & !(1u8 << n)
}

/// The shade that the palette register `palette` gives to the colour
/// number `colour`: the two bits at twice that position.
pub open spec fn palette_shade(palette: u8, colour: u8) -> u8 {
    (palette >> ((colour * 2) as u8)) & 3
}

/// The facts about single bits on which the rest of the crate builds.
pub proof fn lemma_bit_facts(byte: u8, n: u8)
    requires
        n < 8,
    ensures
        bit_value(byte, n) <= 1,
        bit_value(with_bit_set(byte, n), n) == 1,
        bit_value(with_bit_clear(byte, n), n) == 0,
        forall|m: u8| m < 8 && m != n ==> #[trigger] bit_value(with_bit_set(byte, n), m) == bit_value(byte, m),
        forall|m: u8| m < 8 && m != n ==> #[trigger] bit_value(with_bit_clear(byte, n), m) == bit_value(byte, m),
{
    assert(((byte >> n) & 1) <= 1) by (bit_vector);
    assert(n < 8 ==> (((byte | (1u8 << n)) >> n) & 1) == 1 && (((byte & !(1u8 << n)) >> n) & 1) == 0)
        by (bit_vector);
    assert(forall|m: u8| m < 8 && n < 8 && m != n ==> (#[trigger] ((byte | (1u8 << n)) >> m) & 1) == ((byte >> m) & 1))
        by (bit_vector);
    assert(forall|m: u8| m < 8 && n < 8 && m != n ==> (#[trigger] ((byte & !(1u8 << n)) >> m) & 1) == ((byte >> m) & 1))
        by (bit_vector);
}

/// A palette gives every colour number one of the four shades.
pub proof fn lemma_shade_range(palette: u8, colour: u8)
    ensures
        palette_shade(palette, colour) <= 3,
{
    let s = (colour * 2) as u8;
    assert(((palette >> s) & 3) <= 3) by (bit_vector);
}

pub fn get_bit(byte: u8, n: u8) -> (r: u8)
    requires
        n < 8,
    ensures
        r == bit_value(byte, n),
        r <= 1,
{
    proof {
        lemma_bit_facts(byte, n);
    }
    (byte >> n) & 1
}

pub fn test_bit(byte: u8, n: u8) -> (r: bool)
    requires
        n < 8,
    ensures
        r == bit_is_set(byte, n),
{
    (byte >> n) & 1 == 1
}

pub fn shade(palette: u8, colour: u8) -> (r: u8)
    requires
        colour <= 3,
    ensures
        r == palette_shade(palette, colour),
        r <= 3,
{
    proof {
        lemma_shade_range(palette, colour);
    }
    (palette >> (colour * 2)) & 3
}

} // verus!
