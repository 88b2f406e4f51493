//! Converts sixteen bytes at a time with lane-wise arithmetic: shift and mask, a compare that
//! selects between two offsets, an add, and an interleave.
use vstd::prelude::*;

use crate::hex::{
    ascii_to_string, hex_bytes, hex_digit, hex_text, lemma_hex_bytes_ascii, lemma_hex_bytes_concat,
    ASCII_UPPER_A, ASCII_ZERO,
};
use crate::implementations::byte_by_byte::_byte_by_byte;
use crate::implementations::vector::{interleave, load, split_nibbles, store, LANES};

verus! {

/// Returns the uppercase ASCII hexadecimal text of `input`.
///
/// The whole vectors at the front are converted sixteen bytes at a time; the bytes after them,
/// fewer than sixteen, are converted one at a time.
pub fn to_ascii_hex(input: &[u8]) -> (r: String)
    ensures
        r@ == hex_text(input@),
        r@.len() == 2 * input@.len(),
{
    let mut buffer: Vec<u8> = Vec::with_capacity(input.len().saturating_add(input.len()));
    let n_middle = input.len() - input.len() % LANES;
    let (middle, high) = input.split_at(n_middle);

    let mut offset: usize = 0;
    while offset < n_middle
        invariant
            n_middle == middle@.len(),
            n_middle % 16 == 0,
            offset <= n_middle,
            offset % 16 == 0,
            buffer@ == hex_bytes(middle@.subrange(0, offset as int)),
        decreases n_middle - offset,
    {
        let window = load(middle, offset);
        let (result_one, result_two) = to_hex_simd_1(&window);
        let ghost done = buffer@;
        store(&mut buffer, &result_one);
        store(&mut buffer, &result_two);
        proof {
            let before = middle@.subrange(0, offset as int);
            lemma_hex_bytes_concat(window@.subrange(0, 8), window@.subrange(8, 16));
            assert(window@ =~= window@.subrange(0, 8) + window@.subrange(8, 16));
            assert(middle@.subrange(0, offset + 16) =~= before + window@);
            lemma_hex_bytes_concat(before, window@);
            assert(buffer@ =~= done + result_one@ + result_two@);
        }
        offset += LANES;
    }

    let mut high_digits = _byte_by_byte(high);
    proof {
        assert(middle@.subrange(0, n_middle as int) =~= middle@);
        assert(input@ =~= middle@ + high@);
        lemma_hex_bytes_concat(middle@, high@);
        lemma_hex_bytes_ascii(input@);
    }
    buffer.append(&mut high_digits);
    ascii_to_string(buffer)
}

/// Given one vector of sixteen bytes, converts it to ASCII hexadecimal digits. Converting
/// doubles the length, so the first vector returned holds the digits of the first eight bytes,
/// and the second those of the last eight.
fn to_hex_simd_1(window: &[u8; 16]) -> (r: ([u8; 16], [u8; 16]))
    ensures
        r.0@ == hex_bytes(window@.subrange(0, 8)),
        r.1@ == hex_bytes(window@.subrange(8, 16)),
{
    let (high_nibbles, low_nibbles) = split_nibbles(window);
    let high_digits = to_hex_digit(&high_nibbles);
    let low_digits = to_hex_digit(&low_nibbles);
    let r = interleave(&high_digits, &low_digits);
    assert(r.0@ =~= hex_bytes(window@.subrange(0, 8)));
    assert(r.1@ =~= hex_bytes(window@.subrange(8, 16)));
    r
}

/// Converts every lane, a nibble, to the ASCII code of its digit: a compare with ten selects
/// the offset of the letters or of the digits, and the nibble is added to it.
fn to_hex_digit(nibbles: &[u8; 16]) -> (r: [u8; 16])
    requires
        forall|j: int| 0 <= j < 16 ==> #[trigger] nibbles[j] < 16,
    ensures
        forall|j: int| 0 <= j < 16 ==> #[trigger] r[j] == hex_digit(nibbles[j]),
{
    // The letters start at ten, so their offset is ten below `A`.
    let letter_offset: u8 = ASCII_UPPER_A - 10;
    let digit_offset: u8 = ASCII_ZERO;
    let ten: u8 = 10;
    let mut r: [u8; 16] = [0u8; 16];
    let mut j: usize = 0;
    while j < LANES
        invariant
            j <= 16,
            letter_offset == ASCII_UPPER_A - 10,
            digit_offset == ASCII_ZERO,
            ten == 10,
            forall|k: int| 0 <= k < 16 ==> #[trigger] nibbles[k] < 16,
            forall|k: int| 0 <= k < j ==> #[trigger] r[k] == hex_digit(nibbles[k]),
        decreases 16 - j,
    {
        let needs_a_letter = nibbles[j] >= ten;
        let base = if needs_a_letter {
            letter_offset
        } else {
            digit_offset
        };
        r[j] = base + nibbles[j];
        j += 1;
    }
    r
}

} // verus!
