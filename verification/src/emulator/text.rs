use vstd::prelude::*;
use vstd::string::*;

verus! {

/// The hexadecimal digit for `n`, in lower case.
pub open spec fn lower_digit(n: int) -> char {
    if n == 0 {
        '0'
    } else if n == 1 {
        '1'
    } else if n == 2 {
        '2'
    } else if n == 3 {
        '3'
    } else if n == 4 {
        '4'
    } else if n == 5 {
        '5'
    } else if n == 6 {
        '6'
    } else if n == 7 {
        '7'
    } else if n == 8 {
        '8'
    } else if n == 9 {
        '9'
    } else if n == 10 {
        'a'
    } else if n == 11 {
        'b'
    } else if n == 12 {
        'c'
    } else if n == 13 {
        'd'
    } else if n == 14 {
        'e'
    } else {
        'f'
    }
}

/// The hexadecimal digit for `n`, in upper case.
pub open spec fn upper_digit(n: int) -> char {
    if n == 0 {
        '0'
    } else if n == 1 {
        '1'
    } else if n == 2 {
        '2'
    } else if n == 3 {
        '3'
    } else if n == 4 {
        '4'
    } else if n == 5 {
        '5'
    } else if n == 6 {
        '6'
    } else if n == 7 {
        '7'
    } else if n == 8 {
        '8'
    } else if n == 9 {
        '9'
    } else if n == 10 {
        'A'
    } else if n == 11 {
        'B'
    } else if n == 12 {
        'C'
    } else if n == 13 {
        'D'
    } else if n == 14 {
        'E'
    } else {
        'F'
    }
}

/// The hexadecimal digit for `n` in the case asked for.
pub open spec fn hex_digit(n: int, upper: bool) -> char {
    if upper {
        upper_digit(n)
    } else {
        lower_digit(n)
    }
}

/// The two hexadecimal digits of `byte`.
pub open spec fn hex_byte(byte: u8, upper: bool) -> Seq<char> {
    seq![hex_digit(byte as int / 16, upper), hex_digit(byte as int % 16, upper)]
}

/// The four hexadecimal digits of `word`.
pub open spec fn hex_word(word: u16, upper: bool) -> Seq<char> {
    hex_byte((word / 256) as u8, upper) + hex_byte((word % 256) as u8, upper)
}

/// `byte` in decimal, with no leading zeros.
pub open spec fn decimal(byte: u8) -> Seq<char> {
    if byte < 10 {
        seq![lower_digit(byte as int)]
    } else if byte < 100 {
        seq![lower_digit(byte as int / 10), lower_digit(byte as int % 10)]
    } else {
        seq![lower_digit(byte as int / 100), lower_digit(byte as int / 10 % 10), lower_digit(byte as int % 10)]
    }
}

/// The four binary digits of `nibble`.
pub open spec fn binary_nibble(nibble: u8) -> Seq<char> {
    seq![
        lower_digit(nibble as int / 8 % 2),
        lower_digit(nibble as int / 4 % 2),
        lower_digit(nibble as int / 2 % 2),
        lower_digit(nibble as int % 2),
    ]
}

fn lower_text(n: u8) -> (r: &'static str)
    requires
        n < 16,
    ensures
        r@ == seq![lower_digit(n as int)],
{
    proof {
        reveal_strlit("0");
        reveal_strlit("1");
        reveal_strlit("2");
        reveal_strlit("3");
        reveal_strlit("4");
        reveal_strlit("5");
        reveal_strlit("6");
        reveal_strlit("7");
        reveal_strlit("8");
        reveal_strlit("9");
        reveal_strlit("a");
        reveal_strlit("b");
        reveal_strlit("c");
        reveal_strlit("d");
        reveal_strlit("e");
        reveal_strlit("f");
    }
    let text = if n == 0 {
        "0"
    } else if n == 1 {
        "1"
    } else if n == 2 {
        "2"
    } else if n == 3 {
        "3"
    } else if n == 4 {
        "4"
    } else if n == 5 {
        "5"
    } else if n == 6 {
        "6"
    } else if n == 7 {
        "7"
    } else if n == 8 {
        "8"
    } else if n == 9 {
        "9"
    } else if n == 10 {
        "a"
    } else if n == 11 {
        "b"
    } else if n == 12 {
        "c"
    } else if n == 13 {
        "d"
    } else if n == 14 {
        "e"
    } else {
        "f"
    };
    assert(text@ =~= seq![lower_digit(n as int)]);
    text
}

fn upper_text(n: u8) -> (r: &'static str)
    requires
        n < 16,
    ensures
        r@ == seq![upper_digit(n as int)],
{
    proof {
        reveal_strlit("0");
        reveal_strlit("1");
        reveal_strlit("2");
        reveal_strlit("3");
        reveal_strlit("4");
        reveal_strlit("5");
        reveal_strlit("6");
        reveal_strlit("7");
        reveal_strlit("8");
        reveal_strlit("9");
        reveal_strlit("A");
        reveal_strlit("B");
        reveal_strlit("C");
        reveal_strlit("D");
        reveal_strlit("E");
        reveal_strlit("F");
    }
    let text = if n == 0 {
        "0"
    } else if n == 1 {
        "1"
    } else if n == 2 {
        "2"
    } else if n == 3 {
        "3"
    } else if n == 4 {
        "4"
    } else if n == 5 {
        "5"
    } else if n == 6 {
        "6"
    } else if n == 7 {
        "7"
    } else if n == 8 {
        "8"
    } else if n == 9 {
        "9"
    } else if n == 10 {
        "A"
    } else if n == 11 {
        "B"
    } else if n == 12 {
        "C"
    } else if n == 13 {
        "D"
    } else if n == 14 {
        "E"
    } else {
        "F"
    };
    assert(text@ =~= seq![upper_digit(n as int)]);
    text
}

/// Appends the hexadecimal digit for `n` to `line`.
pub fn push_digit(line: &mut String, n: u8, upper: bool)
    requires
        n < 16,
    ensures
        final(line)@ == old(line)@.push(hex_digit(n as int, upper)),
{
    if upper {
        line.append(upper_text(n));
    } else {
        line.append(lower_text(n));
    }
    assert(line@ =~= old(line)@.push(hex_digit(n as int, upper)));
}

/// Appends the two hexadecimal digits of `byte` to `line`.
pub fn push_hex_byte(line: &mut String, byte: u8, upper: bool)
    ensures
        final(line)@ == old(line)@ + hex_byte(byte, upper),
{
    push_digit(line, byte / 16, upper);
    push_digit(line, byte % 16, upper);
    assert(line@ =~= old(line)@ + hex_byte(byte, upper));
}

/// Appends the four hexadecimal digits of `word` to `line`.
pub fn push_hex_word(line: &mut String, word: u16, upper: bool)
    ensures
        final(line)@ == old(line)@ + hex_word(word, upper),
{
    push_hex_byte(line, (word / 256) as u8, upper);
    push_hex_byte(line, (word % 256) as u8, upper);
    assert(line@ =~= old(line)@ + hex_word(word, upper));
}

/// Appends `byte` in decimal to `line`.
pub fn push_decimal(line: &mut String, byte: u8)
    ensures
        final(line)@ == old(line)@ + decimal(byte),
{
    if byte >= 100 {
        push_digit(line, byte / 100, false);
    }
    if byte >= 10 {
        push_digit(line, byte / 10 % 10, false);
    }
    push_digit(line, byte % 10, false);
    assert(line@ =~= old(line)@ + decimal(byte));
}

/// Appends the four binary digits of `nibble` to `line`.
pub fn push_binary_nibble(line: &mut String, nibble: u8)
    ensures
        final(line)@ == old(line)@ + binary_nibble(nibble),
{
    push_digit(line, nibble / 8 % 2, false);
    push_digit(line, nibble / 4 % 2, false);
    push_digit(line, nibble / 2 % 2, false);
    push_digit(line, nibble % 2, false);
    assert(line@ =~= old(line)@ + binary_nibble(nibble));
}

/// The four hexadecimal digits of `word`, in upper case.
pub fn word_text(word: u16) -> (r: String)
    ensures
        r@ == hex_word(word, true),
{
    let mut line = String::new();
    push_hex_word(&mut line, word, true);
    assert(line@ =~= hex_word(word, true));
    line
}

} // verus!
