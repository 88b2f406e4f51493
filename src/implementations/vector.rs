//! Sixteen-lane byte vectors and the lane-wise operations that the vector encoders are built
//! from: load, nibble split, interleave, table lookup and store.
use vstd::prelude::*;

use crate::hex::{high_nibble, lemma_nibbles_bounded, low_nibble};

verus! {

/// Number of bytes in one vector.
pub const LANES: usize = 16;

/// Loads the sixteen bytes of `input` that start at `start`.
pub(crate) fn load(input: &[u8], start: usize) -> (v: [u8; 16])
    requires
        start + 16 <= input@.len(),
    ensures
        v@ == input@.subrange(start as int, start + 16),
{
    let n = input.len();
    let mut v: [u8; 16] = [0u8; 16];
    let mut j: usize = 0;
    while j < LANES
        invariant
            j <= 16,
            n == input@.len(),
            start + 16 <= n,
            forall|k: int| 0 <= k < j ==> v[k] == input@[start + k],
        decreases 16 - j,
    {
        v[j] = input[start + j];
        j += 1;
    }
    assert(v@ =~= input@.subrange(start as int, start + 16));
    v
}

/// Splits every lane into its high nibble (shift right by four) and its low nibble (mask with
/// `0xF`).
pub(crate) fn split_nibbles(v: &[u8; 16]) -> (r: ([u8; 16], [u8; 16]))
    ensures
        forall|j: int| 0 <= j < 16 ==> #[trigger] r.0[j] == high_nibble(v[j]) && r.0[j] < 16,
        forall|j: int| 0 <= j < 16 ==> #[trigger] r.1[j] == low_nibble(v[j]) && r.1[j] < 16,
{
    let mut high: [u8; 16] = [0u8; 16];
    let mut low: [u8; 16] = [0u8; 16];
    let mut j: usize = 0;
    while j < LANES
        invariant
            j <= 16,
            forall|k: int| 0 <= k < j ==> #[trigger] high[k] == high_nibble(v[k]) && high[k] < 16,
            forall|k: int| 0 <= k < j ==> #[trigger] low[k] == low_nibble(v[k]) && low[k] < 16,
        decreases 16 - j,
    {
        proof {
            lemma_nibbles_bounded(v[j as int]);
        }
        high[j] = v[j] >> 4;
        low[j] = v[j] & 0xF;
        assert(high[j as int] == high_nibble(v[j as int]));
        assert(low[j as int] == low_nibble(v[j as int]));
        j += 1;
    }
    (high, low)
}

/// Interleaves two vectors lane by lane: the first result takes lanes `0..8` of `a` and `b`
/// alternately (`a[0], b[0], a[1], b[1], ...`), the second takes lanes `8..16`.
pub(crate) fn interleave(a: &[u8; 16], b: &[u8; 16]) -> (r: ([u8; 16], [u8; 16]))
    ensures
        forall|i: int|
            0 <= i < 16 ==> #[trigger] r.0[i] == if i % 2 == 0 {
                a[i / 2]
            } else {
                b[i / 2]
            },
        forall|i: int|
            0 <= i < 16 ==> #[trigger] r.1[i] == if i % 2 == 0 {
                a[8 + i / 2]
            } else {
                b[8 + i / 2]
            },
{
    let mut first: [u8; 16] = [0u8; 16];
    let mut second: [u8; 16] = [0u8; 16];
    let mut j: usize = 0;
    while j < 8
        invariant
            j <= 8,
            forall|i: int|
                0 <= i < 2 * j ==> #[trigger] first[i] == if i % 2 == 0 {
                    a[i / 2]
                } else {
                    b[i / 2]
                },
            forall|i: int|
                0 <= i < 2 * j ==> #[trigger] second[i] == if i % 2 == 0 {
                    a[8 + i / 2]
                } else {
                    b[8 + i / 2]
                },
        decreases 8 - j,
    {
        first[2 * j] = a[j];
        first[2 * j + 1] = b[j];
        second[2 * j] = a[8 + j];
        second[2 * j + 1] = b[8 + j];
        j += 1;
    }
    (first, second)
}

/// Replaces every lane by the entry of `table` that it indexes.
pub(crate) fn lookup(table: &[u8; 16], indices: &[u8; 16]) -> (r: [u8; 16])
    requires
        forall|j: int| 0 <= j < 16 ==> #[trigger] indices[j] < 16,
    ensures
        forall|j: int| 0 <= j < 16 ==> #[trigger] r[j] == table[indices[j] as int],
{
    let mut r: [u8; 16] = [0u8; 16];
    let mut j: usize = 0;
    while j < LANES
        invariant
            j <= 16,
            forall|k: int| 0 <= k < 16 ==> #[trigger] indices[k] < 16,
            forall|k: int| 0 <= k < j ==> #[trigger] r[k] == table[indices[k] as int],
        decreases 16 - j,
    {
        r[j] = table[indices[j] as usize];
        j += 1;
    }
    r
}

/// Appends the sixteen lanes of `v` to `buffer`.
pub(crate) fn store(buffer: &mut Vec<u8>, v: &[u8; 16])
    ensures
        final(buffer)@ == old(buffer)@ + v@,
{
    let mut j: usize = 0;
    while j < LANES
        invariant
            j <= 16,
            buffer@ == old(buffer)@ + v@.subrange(0, j as int),
        decreases 16 - j,
    {
        buffer.push(v[j]);
        j += 1;
        assert(v@.subrange(0, j as int) =~= v@.subrange(0, j - 1).push(v@[j - 1]));
    }
    assert(v@.subrange(0, 16) =~= v@);
}

} // verus!
