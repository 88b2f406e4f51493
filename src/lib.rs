//! A fast binary to hexadecimal converter.
//!
//! Every encoder in [`implementations`] turns a byte buffer into its uppercase ASCII
//! hexadecimal text, and each one is proved to return exactly [`hex::hex_text`] of its input.
use vstd::prelude::*;

pub mod hex;
pub mod implementations;

use crate::hex::{hex_text, is_upper_hex_char, lemma_encoded_length, lemma_upper_hex_alphabet};

verus! {

/// Returns the ASCII hexadecimal representation of `bytes`.
///
/// The letters are uppercase, and the text is exactly twice as long as `bytes`. Every encoder
/// of [`implementations`] returns the same text; this one uses the table-lookup encoder.
pub fn to_ascii_hex(bytes: &[u8]) -> (r: String)
    ensures
        r@ == hex_text(bytes@),
        r@.len() == 2 * bytes@.len(),
        forall|i: int| 0 <= i < r@.len() ==> is_upper_hex_char(#[trigger] r@[i]),
{
    proof {
        lemma_encoded_length(bytes@);
        lemma_upper_hex_alphabet(bytes@);
    }
    implementations::neon_tbl::to_ascii_hex(bytes)
}

} // verus!
