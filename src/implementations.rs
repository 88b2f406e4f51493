//! The interchangeable encoders: byte at a time, portable 16-lane vectors, and 16-lane
//! vectors with a nibble lookup table.
pub mod byte_by_byte;
pub mod neon_tbl;
pub mod portable_simd;
pub(crate) mod vector;
