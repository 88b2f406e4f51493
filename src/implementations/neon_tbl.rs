//! Converts sixteen bytes at a time with a table lookup: every nibble indexes a sixteen-entry
//! table of ASCII digits, the way AArch64 NEON's `tbl.16b` instruction does.
use vstd::prelude::*;

use crate::hex::{
    ascii_to_string, hex_bytes, hex_digit, hex_text, lemma_hex_bytes_ascii, lemma_hex_bytes_concat,
    lemma_hex_bytes_push, lemma_nibbles_bounded,
};
use crate::implementations::byte_by_byte::to_hex_digit;
use vstd::arithmetic::div_mod::lemma_mod_decreases;
use crate::implementations::vector::{interleave, load, lookup, split_nibbles, store};

verus! {

/// How many bytes to process in one loop iteration.
pub const MOUTHFUL: usize = 16;

/// The lookup table: the ASCII code of the hexadecimal digit of each nibble.
pub const LOOKUP: [u8; 16] = [
    0x30, 0x31, 0x32, 0x33, 0x34, 0x35, 0x36, 0x37, 0x38, 0x39, 0x41, 0x42, 0x43, 0x44, 0x45, 0x46,
];

/// Entry `n` of the lookup table is the digit of nibble `n`.
proof fn lemma_lookup_table()
    ensures
        forall|n: u8| n < 16 ==> #[trigger] LOOKUP[n as int] == hex_digit(n),
{
}

/// Returns the uppercase ASCII hexadecimal text of `input`.
pub fn to_ascii_hex(input: &[u8]) -> (r: String)
    ensures
        r@ == hex_text(input@),
        r@.len() == 2 * input@.len(),
{
    let output_size = input.len().saturating_add(input.len());
    let mut buffer: Vec<u8> = Vec::with_capacity(output_size);

    // The table loop can only do multiples of sixteen, so the first (up to) fifteen bytes are
    // converted one at a time.
    let n_initial_bytes = convert_initial_prefix_byte_by_byte::<MOUTHFUL>(input, &mut buffer);
    let (initial_input, remaining_input) = input.split_at(n_initial_bytes);
    proof {
        assert(initial_input@ =~= input@.subrange(0, n_initial_bytes as int));
    }
    _convert_fast(remaining_input, &mut buffer);
    proof {
        assert(input@ =~= initial_input@ + remaining_input@);
        lemma_hex_bytes_concat(initial_input@, remaining_input@);
        lemma_hex_bytes_ascii(input@);
    }
    ascii_to_string(buffer)
}

/// Appends the hexadecimal encoding of `remaining_input`, whose length is a multiple of
/// sixteen, to `buffer`, sixteen bytes of input at a time.
fn _convert_fast(remaining_input: &[u8], buffer: &mut Vec<u8>)
    requires
        remaining_input@.len() % 16 == 0,
    ensures
        final(buffer)@ == old(buffer)@ + hex_bytes(remaining_input@),
{
    if remaining_input.is_empty() {
        // The loop below does at least one iteration.
        proof {
            assert(hex_bytes(remaining_input@) =~= Seq::<u8>::empty());
            assert(buffer@ =~= buffer@ + Seq::<u8>::empty());
        }
        return;
    }
    proof {
        lemma_lookup_table();
    }
    let n = remaining_input.len();
    let mut offset: usize = 0;
    let mut remaining: usize = n;
    loop
        invariant_except_break
            remaining > 0,
        invariant
            n == remaining_input@.len(),
            offset + remaining == n,
            remaining % 16 == 0,
            buffer@ == old(buffer)@ + hex_bytes(remaining_input@.subrange(0, offset as int)),
        ensures
            remaining == 0,
        decreases remaining,
    {
        let chunk = load(remaining_input, offset);
        let (high_nibbles, low_nibbles) = split_nibbles(&chunk);
        let (first, second) = interleave(&high_nibbles, &low_nibbles);
        let first = lookup(&LOOKUP, &first);
        let second = lookup(&LOOKUP, &second);
        let ghost done = buffer@;
        store(buffer, &first);
        store(buffer, &second);
        proof {
            let before = remaining_input@.subrange(0, offset as int);
            let front = chunk@.subrange(0, 8);
            let back = chunk@.subrange(8, 16);
            assert(first@ =~= hex_bytes(front));
            assert(second@ =~= hex_bytes(back));
            assert(chunk@ =~= front + back);
            lemma_hex_bytes_concat(front, back);
            assert(remaining_input@.subrange(0, offset + 16) =~= before + chunk@);
            lemma_hex_bytes_concat(before, chunk@);
            assert(buffer@ =~= done + first@ + second@);
        }
        offset += MOUTHFUL;
        remaining -= MOUTHFUL;
        if remaining == 0 {
            break;
        }
    }
    proof {
        assert(remaining_input@.subrange(0, n as int) =~= remaining_input@);
    }
}

/// Converts the first `input.len() % N` bytes of `input` one at a time, appending their
/// digits to `buffer`, and returns how many bytes it consumed. What is left of `input` is then
/// a multiple of `N` bytes long.
fn convert_initial_prefix_byte_by_byte<const N: usize>(
    input: &[u8],
    buffer: &mut Vec<u8>,
) -> (n_initial_bytes: usize)
    requires
        N > 0,
    ensures
        n_initial_bytes == input@.len() % (N as nat),
        final(buffer)@ == old(buffer)@ + hex_bytes(input@.subrange(0, n_initial_bytes as int)),
{
    let n_initial_bytes = input.len() % N;
    proof {
        lemma_mod_decreases(input@.len(), N as nat);
    }
    let mut i: usize = 0;
    while i < n_initial_bytes
        invariant
            n_initial_bytes <= input@.len(),
            i <= n_initial_bytes,
            buffer@ == old(buffer)@ + hex_bytes(input@.subrange(0, i as int)),
        decreases n_initial_bytes - i,
    {
        let byte = input[i];
        let high_nibble = byte >> 4;
        let low_nibble = byte & 0xF;
        proof {
            lemma_nibbles_bounded(byte);
            lemma_hex_bytes_push(input@.subrange(0, i as int), byte);
            assert(input@.subrange(0, i + 1) =~= input@.subrange(0, i as int).push(byte));
        }
        buffer.push(to_hex_digit(high_nibble));
        buffer.push(to_hex_digit(low_nibble));
        i += 1;
    }
    n_initial_bytes
}

} // verus!
