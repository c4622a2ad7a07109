//! Writing bytes as hexadecimal digits.

use vstd::prelude::*;
use vstd::string::*;

verus! {

/// The upper-case hexadecimal digit for a value below sixteen, as an ASCII
/// byte.
pub open spec fn hex_digit_spec(value: u8) -> u8 {
    if value < 10 {
        (0x30 + value) as u8
    } else {
        (0x41 + value - 10) as u8
    }
}

/// A byte string in upper-case hexadecimal digits, two for each byte, the
/// high half of a byte first.
pub open spec fn hex_upper_spec(bytes: Seq<u8>) -> Seq<u8> {
    Seq::new(
        2 * bytes.len(),
        |i: int|
            if i % 2 == 0 {
                hex_digit_spec(bytes[i / 2] / 16)
            } else {
                hex_digit_spec(bytes[i / 2] % 16)
            },
    )
}

/// The upper-case hexadecimal digit for a value below sixteen.
pub fn hex_digit(value: u8) -> (digit: u8)
    requires
        value < 16,
    ensures
        digit == hex_digit_spec(value),
{
    if value < 10 {
        0x30 + value
    } else {
        0x41 + (value - 10)
    }
}

/// Writes a byte string in upper-case hexadecimal digits.
pub fn hex_upper(bytes: &[u8]) -> (digits: Vec<u8>)
    ensures
        digits@ == hex_upper_spec(bytes@),
{
    let mut digits: Vec<u8> = Vec::new();
    let mut i: usize = 0;
    while i < bytes.len()
        invariant
            i <= bytes@.len(),
            digits@ == hex_upper_spec(bytes@.subrange(0, i as int)),
        decreases bytes@.len() - i,
    {
        let byte = bytes[i];
        digits.push(hex_digit(byte / 16));
        digits.push(hex_digit(byte % 16));
        i += 1;
        assert(digits@ =~= hex_upper_spec(bytes@.subrange(0, i as int)));
    }
    assert(bytes@.subrange(0, i as int) == bytes@);
    digits
}

/// A byte as two upper-case hexadecimal digits of text.
pub open spec fn hex_pair_spec(byte: u8) -> Seq<char> {
    "0123456789ABCDEF"@.subrange(byte as int / 16, byte as int / 16 + 1)
        + "0123456789ABCDEF"@.subrange(byte as int % 16, byte as int % 16 + 1)
}

/// The bytes of a list as text: two digits for each byte, a comma and a
/// space between one byte and the next.
pub open spec fn hex_items_spec(bytes: Seq<u8>) -> Seq<char>
    decreases bytes.len(),
{
    if bytes.len() == 0 {
        Seq::empty()
    } else if bytes.len() == 1 {
        hex_pair_spec(bytes[0])
    } else {
        hex_items_spec(bytes.drop_last()) + ", "@ + hex_pair_spec(bytes.last())
    }
}

/// A byte string as a list in text, in square brackets.
pub open spec fn hex_list_spec(bytes: Seq<u8>) -> Seq<char> {
    "["@ + hex_items_spec(bytes) + "]"@
}

/// Writes a byte string as a list in text, such as `[43, 4D, 50, 30]`.
pub fn hex_list(bytes: &[u8]) -> (text: String)
    ensures
        text@ == hex_list_spec(bytes@),
{
    let digits: &'static str = "0123456789ABCDEF";
    proof {
        reveal_strlit("0123456789ABCDEF");
    }
    let mut text = String::from_str("[");
    let mut i: usize = 0;
    while i < bytes.len()
        invariant
            i <= bytes@.len(),
            digits@ == "0123456789ABCDEF"@,
            digits@.len() == 16,
            digits.is_ascii(),
            text@ == "["@ + hex_items_spec(bytes@.subrange(0, i as int)),
        decreases bytes@.len() - i,
    {
        let ghost before = bytes@.subrange(0, i as int);
        let ghost upto = bytes@.subrange(0, i + 1);
        let byte = bytes[i];
        let high: usize = (byte / 16) as usize;
        let low: usize = (byte % 16) as usize;
        if i > 0 {
            text.append(", ");
        }
        text.append(digits.substring_ascii(high, high + 1));
        text.append(digits.substring_ascii(low, low + 1));
        proof {
            assert(upto.drop_last() == before);
            assert(upto.last() == byte);
            assert(text@ =~= "["@ + hex_items_spec(upto));
        }
        i += 1;
    }
    assert(bytes@.subrange(0, i as int) == bytes@);
    text.append("]");
    text
}

} // verus!
