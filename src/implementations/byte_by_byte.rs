//! The basic byte-by-byte way to convert bytes to hexadecimal.
use vstd::prelude::*;

use crate::hex::{
    ascii_to_string, hex_bytes, hex_digit, hex_text, lemma_hex_bytes_ascii, lemma_hex_bytes_push,
    lemma_nibbles_bounded, ASCII_UPPER_A, ASCII_ZERO,
};

verus! {

/// Returns the uppercase ASCII hexadecimal text of `input`.
pub fn to_ascii_hex(input: &[u8]) -> (r: String)
    ensures
        r@ == hex_text(input@),
        r@.len() == 2 * input@.len(),
{
    let bytes = _byte_by_byte(input);
    proof {
        lemma_hex_bytes_ascii(input@);
    }
    ascii_to_string(bytes)
}

/// Converts one nibble (`0..=15`) to the ASCII code of its uppercase hexadecimal digit.
pub(crate) fn to_hex_digit(nibble: u8) -> (r: u8)
    requires
        nibble < 16,
    ensures
        r == hex_digit(nibble),
{
    if nibble >= 10 {
        ASCII_UPPER_A + nibble - 10
    } else {
        ASCII_ZERO + nibble
    }
}

/// Returns the hexadecimal encoding of `input` as ASCII bytes. The vector encoders use it for
/// the bytes that do not fill a whole vector.
pub(crate) fn _byte_by_byte(input: &[u8]) -> (r: Vec<u8>)
    ensures
        r@ == hex_bytes(input@),
{
    let mut vec: Vec<u8> = Vec::with_capacity(input.len().saturating_add(input.len()));
    let mut i: usize = 0;
    while i < input.len()
        invariant
            i <= input@.len(),
            vec@ == hex_bytes(input@.subrange(0, i as int)),
        decreases input@.len() - i,
    {
        let byte = input[i];
        let high_nibble = byte >> 4;
        let low_nibble = byte & 0xF;
        proof {
            lemma_nibbles_bounded(byte);
            lemma_hex_bytes_push(input@.subrange(0, i as int), byte);
            assert(input@.subrange(0, i + 1) =~= input@.subrange(0, i as int).push(byte));
        }
        vec.push(to_hex_digit(high_nibble));
        vec.push(to_hex_digit(low_nibble));
        i += 1;
    }
    proof {
        assert(input@.subrange(0, input@.len() as int) =~= input@);
    }
    vec
}

} // verus!
