//! Text that is made of numbers and of the guest's bytes.

use vstd::prelude::*;

verus! {

/// `String::push` appends the character to the string.
pub assume_specification[ String::push ](text: &mut String, c: char)
    ensures
        final(text)@ == old(text)@.push(c),
;

/// The upper-case hexadecimal digit of a number under 16; `F` for any other
/// number.
pub open spec fn spec_hex_digit(n: int) -> char {
    if n == 0 {
        '0'
    } else if n == 1 {
        '1'
    } else if n == 2 {
        '2'
    } else if n == 3 {
        '3'
    } else if n == 4 {
        '4'
    } else if n == 5 {
        '5'
    } else if n == 6 {
        '6'
    } else if n == 7 {
        '7'
    } else if n == 8 {
        '8'
    } else if n == 9 {
        '9'
    } else if n == 10 {
        'A'
    } else if n == 11 {
        'B'
    } else if n == 12 {
        'C'
    } else if n == 13 {
        'D'
    } else if n == 14 {
        'E'
    } else {
        'F'
    }
}

/// The upper-case hexadecimal digits of `value`, most significant first,
/// with zeros in front up to `width` digits, and more digits than that
/// where the value needs them.
pub open spec fn spec_hex(value: nat, width: nat) -> Seq<char>
    decreases value + width,
{
    if value < 16 && width <= 1 {
        seq![spec_hex_digit(value as int)]
    } else {
        spec_hex(
            value / 16,
            if width == 0 {
                0
            } else {
                (width - 1) as nat
            },
        ).push(spec_hex_digit((value % 16) as int))
    }
}

/// The upper-case hexadecimal digit of a number under 16; `F` for any other
/// number.
pub fn hex_digit(n: u8) -> (c: char)
    ensures
        c == spec_hex_digit(n as int),
{
    if n == 0 {
        '0'
    } else if n == 1 {
        '1'
    } else if n == 2 {
        '2'
    } else if n == 3 {
        '3'
    } else if n == 4 {
        '4'
    } else if n == 5 {
        '5'
    } else if n == 6 {
        '6'
    } else if n == 7 {
        '7'
    } else if n == 8 {
        '8'
    } else if n == 9 {
        '9'
    } else if n == 10 {
        'A'
    } else if n == 11 {
        'B'
    } else if n == 12 {
        'C'
    } else if n == 13 {
        'D'
    } else if n == 14 {
        'E'
    } else {
        'F'
    }
}

/// Appends the upper-case hexadecimal digits of `value` to `text`, with
/// zeros in front up to `width` digits.
pub fn push_hex(text: &mut String, value: u64, width: u32)
    ensures
        final(text)@ == old(text)@ + spec_hex(value as nat, width as nat),
    decreases value + width,
{
    if value < 16 && width <= 1 {
        text.push(hex_digit(value as u8));
        assert(text@ =~= old(text)@ + spec_hex(value as nat, width as nat));
    } else {
        let less: u32 = if width == 0 {
            0
        } else {
            width - 1
        };
        push_hex(text, value / 16, less);
        let ghost front = text@;
        text.push(hex_digit((value % 16) as u8));
        assert(text@ =~= old(text)@ + spec_hex(value as nat, width as nat));
    }
}

/// The characters that the bytes stand for, each byte taken as the code
/// point of its own number.
pub open spec fn spec_latin1(bytes: Seq<u8>) -> Seq<char> {
    Seq::new(bytes.len(), |i: int| bytes[i] as char)
}

/// The text that the bytes stand for, each byte taken as the code point of
/// its own number.
pub fn latin1(bytes: &Vec<u8>) -> (text: String)
    ensures
        text@ == spec_latin1(bytes@),
{
    let mut text = String::new();
    let mut i: usize = 0;
    while i < bytes.len()
        invariant
            i <= bytes.len(),
            text@ == spec_latin1(bytes@.take(i as int)),
        decreases bytes.len() - i,
    {
        let c: char = bytes[i] as char;
        text.push(c);
        assert(text@ =~= spec_latin1(bytes@.take(i + 1)));
        i += 1;
    }
    assert(bytes@.take(bytes@.len() as int) == bytes@);
    text
}

} // verus!
