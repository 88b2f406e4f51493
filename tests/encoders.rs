use hx::implementations::{byte_by_byte, neon_tbl, portable_simd};
use hx::to_ascii_hex;

fn expected_hex(bytes: &[u8]) -> String {
    bytes.iter().map(|b| format!("{:02X}", b)).collect()
}

fn all_encoders(bytes: &[u8]) -> [String; 4] {
    [
        byte_by_byte::to_ascii_hex(bytes),
        portable_simd::to_ascii_hex(bytes),
        neon_tbl::to_ascii_hex(bytes),
        to_ascii_hex(bytes),
    ]
}

fn pattern(len: usize) -> Vec<u8> {
    (0..len).map(|i| (i * 37 + 11) as u8).collect()
}

#[test]
fn basic_case() {
    let input = b"This is a big string literal that is over 16 bytes long\n\x00";
    let answer = "54686973206973206120626967207374\
                  72696E67206C69746572616C20746861\
                  74206973206F76657220313620627974\
                  6573206C6F6E670A00";
    assert_eq!(&answer, &byte_by_byte::to_ascii_hex(&input[..]));
    assert_eq!(&answer, &portable_simd::to_ascii_hex(&input[..]));
    assert_eq!(&answer, &neon_tbl::to_ascii_hex(&input[..]));
}

#[test]
fn cafebabe() {
    for out in all_encoders(b"\xca\xfe\xba\xbe") {
        assert_eq!("CAFEBABE", out);
    }
}

#[test]
fn four_byte_example() {
    let bytes = b"\xf0\x9f\x92\xa9";
    assert_eq!("F09F92A9", &to_ascii_hex(&bytes[..]));
}

#[test]
fn single_zero_byte() {
    for out in all_encoders(&[0x00]) {
        assert_eq!("00", out);
    }
}

#[test]
fn single_ff_byte() {
    for out in all_encoders(&[0xFF]) {
        assert_eq!("FF", out);
    }
}

#[test]
fn empty_input() {
    for out in all_encoders(&[]) {
        assert_eq!("", out);
    }
}

#[test]
fn seventeen_zero_bytes() {
    let expected = "00".repeat(17);
    for out in all_encoders(&[0u8; 17]) {
        assert_eq!(expected, out);
    }
}

#[test]
fn boundary_lengths() {
    for width in [16usize, 32] {
        for len in [width - 1, width, width + 1, 2 * width - 1, 2 * width, 2 * width + 1] {
            let input = pattern(len);
            let expected = expected_hex(&input);
            for out in all_encoders(&input) {
                assert_eq!(expected, out, "length {}", len);
            }
        }
    }
}

#[test]
fn every_byte_value() {
    let input: Vec<u8> = (0..=255u8).collect();
    let expected = expected_hex(&input);
    for out in all_encoders(&input) {
        assert_eq!(expected, out);
    }
}

#[test]
fn length_is_twice_input() {
    for len in 0..100 {
        let input = pattern(len);
        for out in all_encoders(&input) {
            assert_eq!(2 * len, out.len());
        }
    }
}

#[test]
fn only_uppercase_hex_digits() {
    let input: Vec<u8> = (0..=255u8).rev().collect();
    for out in all_encoders(&input) {
        assert!(out.chars().all(|c| c.is_ascii_digit() || ('A'..='F').contains(&c)));
    }
}

#[test]
fn encoders_agree() {
    for len in 0..80 {
        let input = pattern(len);
        let [scalar, portable, table, dispatched] = all_encoders(&input);
        assert_eq!(scalar, portable);
        assert_eq!(scalar, table);
        assert_eq!(scalar, dispatched);
    }
}

#[test]
fn text_decodes_back() {
    let input = pattern(45);
    let text = to_ascii_hex(&input);
    let decoded: Vec<u8> = (0..text.len() / 2)
        .map(|k| u8::from_str_radix(&text[2 * k..2 * k + 2], 16).unwrap())
        .collect();
    assert_eq!(input, decoded);
}
