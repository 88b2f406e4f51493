//! The mathematical model of uppercase hexadecimal encoding, the laws it obeys, and the
//! conversion of the encoded ASCII bytes into a `String`.
use vstd::prelude::*;

verus! {

/// The ASCII code of `0`.
pub const ASCII_ZERO: u8 = 0x30;

/// The ASCII code of `A`.
pub const ASCII_UPPER_A: u8 = 0x41;

/// The ASCII code of the uppercase hexadecimal digit for `nibble` (`0..=15`).
pub open spec fn hex_digit(nibble: u8) -> u8 {
    if nibble >= 10 {
        (ASCII_UPPER_A + nibble - 10) as u8
    } else {
        (ASCII_ZERO + nibble) as u8
    }
}

/// The upper four bits of a byte.
pub open spec fn high_nibble(byte: u8) -> u8 {
    byte >> 4
}

/// The lower four bits of a byte.
pub open spec fn low_nibble(byte: u8) -> u8 {
    byte & 0xF
}

/// The hexadecimal encoding of `input` as ASCII bytes: positions `2k` and `2k + 1` hold the
/// digits of the high and the low nibble of `input[k]`.
pub open spec fn hex_bytes(input: Seq<u8>) -> Seq<u8> {
    Seq::new(
        2 * input.len(),
        |i: int|
            if i % 2 == 0 {
                hex_digit(high_nibble(input[i / 2]))
            } else {
                hex_digit(low_nibble(input[i / 2]))
            },
    )
}

/// The characters of an ASCII byte sequence.
pub open spec fn ascii_chars(bytes: Seq<u8>) -> Seq<char> {
    bytes.map_values(|b: u8| b as char)
}

/// The uppercase hexadecimal text of `input`.
pub open spec fn hex_text(input: Seq<u8>) -> Seq<char> {
    ascii_chars(hex_bytes(input))
}

/// Whether `c` is one of `0`-`9` or `A`-`F`.
pub open spec fn is_upper_hex_char(c: char) -> bool {
    ('0' <= c && c <= '9') || ('A' <= c && c <= 'F')
}

/// Both nibbles of a byte are at most 15.
pub proof fn lemma_nibbles_bounded(byte: u8)
    ensures
        high_nibble(byte) < 16,
        low_nibble(byte) < 16,
{
    assert(byte >> 4 < 16) by (bit_vector);
    assert(byte & 0xF < 16) by (bit_vector);
}

/// Encoding a concatenation is concatenating the encodings.
pub proof fn lemma_hex_bytes_concat(a: Seq<u8>, b: Seq<u8>)
    ensures
        hex_bytes(a + b) == hex_bytes(a) + hex_bytes(b),
{
    let lhs = hex_bytes(a + b);
    let rhs = hex_bytes(a) + hex_bytes(b);
    assert forall|i: int| 0 <= i < lhs.len() implies lhs[i] == rhs[i] by {
        if i >= 2 * a.len() {
            assert((i - 2 * a.len()) / 2 == i / 2 - a.len());
            assert((i - 2 * a.len()) % 2 == i % 2);
        }
    }
    assert(lhs =~= rhs);
}

/// Encoding one more byte appends its two digits.
pub proof fn lemma_hex_bytes_push(a: Seq<u8>, byte: u8)
    ensures
        hex_bytes(a.push(byte)) == hex_bytes(a).push(hex_digit(high_nibble(byte))).push(
            hex_digit(low_nibble(byte)),
        ),
{
    lemma_hex_bytes_concat(a, seq![byte]);
    assert(a.push(byte) =~= a + seq![byte]);
    assert(hex_bytes(seq![byte]) =~= seq![hex_digit(high_nibble(byte)), hex_digit(low_nibble(byte))]);
    assert(hex_bytes(a).push(hex_digit(high_nibble(byte))).push(hex_digit(low_nibble(byte)))
        =~= hex_bytes(a) + seq![hex_digit(high_nibble(byte)), hex_digit(low_nibble(byte))]);
}

/// Every byte of an encoding is the ASCII code of an uppercase hexadecimal digit.
pub proof fn lemma_hex_bytes_ascii(input: Seq<u8>)
    ensures
        forall|i: int|
            0 <= i < hex_bytes(input).len() ==> #[trigger] hex_bytes(input)[i] < 128
                && is_upper_hex_char(hex_bytes(input)[i] as char),
{
    assert forall|i: int| 0 <= i < hex_bytes(input).len() implies #[trigger] hex_bytes(input)[i]
        < 128 && is_upper_hex_char(hex_bytes(input)[i] as char) by {
        lemma_nibbles_bounded(input[i / 2]);
    }
}

/// The text of an input is twice as long as the input.
pub proof fn lemma_encoded_length(input: Seq<u8>)
    ensures
        hex_text(input).len() == 2 * input.len(),
{
}

/// Every character of the text of an input is one of `0`-`9` and `A`-`F`.
pub proof fn lemma_upper_hex_alphabet(input: Seq<u8>)
    ensures
        forall|i: int|
            0 <= i < hex_text(input).len() ==> is_upper_hex_char(#[trigger] hex_text(input)[i]),
{
    lemma_hex_bytes_ascii(input);
    assert forall|i: int| 0 <= i < hex_text(input).len() implies is_upper_hex_char(
        #[trigger] hex_text(input)[i],
    ) by {
        assert(hex_text(input)[i] == hex_bytes(input)[i] as char);
    }
}

/// The value of an uppercase hexadecimal digit character.
pub open spec fn digit_value(c: char) -> int {
    if '0' <= c && c <= '9' {
        c as int - '0' as int
    } else {
        c as int - 'A' as int + 10
    }
}

/// The bytes that an uppercase hexadecimal text stands for: each pair of characters gives the
/// high and the low nibble of one byte.
pub open spec fn hex_decode(text: Seq<char>) -> Seq<u8> {
    Seq::new(
        text.len() / 2,
        |k: int| (16 * digit_value(text[2 * k]) + digit_value(text[2 * k + 1])) as u8,
    )
}

/// Decoding the text of an input gives the input back: the encoding loses nothing.
pub proof fn lemma_decode_encode(input: Seq<u8>)
    ensures
        hex_decode(hex_text(input)) == input,
{
    let text = hex_text(input);
    assert forall|k: int| 0 <= k < input.len() implies #[trigger] hex_decode(text)[k]
        == input[k] by {
        let b = input[k];
        lemma_nibbles_bounded(b);
        assert((2 * k) / 2 == k && (2 * k) % 2 == 0);
        assert((2 * k + 1) / 2 == k && (2 * k + 1) % 2 == 1);
        lemma_digit_value(high_nibble(b));
        lemma_digit_value(low_nibble(b));
        assert(16 * (b >> 4) + (b & 0xF) == b) by (bit_vector);
    }
    assert(hex_decode(text) =~= input);
}

/// The character of the digit of a nibble has that nibble as its value.
proof fn lemma_digit_value(nibble: u8)
    requires
        nibble < 16,
    ensures
        digit_value(hex_digit(nibble) as char) == nibble,
{
}

/// Relies on `String::from_utf8`: a byte vector that is valid UTF-8 becomes a `String` holding
/// the text it encodes; each ASCII byte is the one character of the same code.
#[verifier::external_body]
pub(crate) fn ascii_to_string(bytes: Vec<u8>) -> (r: String)
    requires
        forall|i: int| 0 <= i < bytes@.len() ==> bytes@[i] < 128,
    ensures
        r@ == ascii_chars(bytes@),
{
    match String::from_utf8(bytes) {
        Ok(s) => s,
        Err(_) => String::new(),
    }
}

} // verus!
