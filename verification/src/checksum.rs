//! Checksums guarding the calibration blocks.
//!
//! The accelerometer block is protected by an additive checksum (a seeded
//! byte sum); the Motion Plus and Balance Board blocks by a CRC32 over
//! selected byte ranges.

use vstd::arithmetic::div_mod::{lemma_mod_adds, lemma_mod_equivalence, lemma_small_mod};
use vstd::prelude::*;

verus! {

/// The CRC32 (IEEE) of a byte sequence, a function of the bytes alone.
pub uninterp spec fn crc32_of(data: Seq<u8>) -> u32;

/// Relies on crc32fast::hash: the CRC32 (IEEE) checksum of the bytes,
/// depending on the bytes alone.
#[verifier::external_body]
pub(crate) fn crc32(data: &Vec<u8>) -> (r: u32)
    ensures
        r == crc32_of(data@),
{
    crc32fast::hash(data.as_slice())
}

/// Sum of all bytes of a sequence.
pub open spec fn spec_sum_bytes(s: Seq<u8>) -> int
    decreases s.len(),
{
    if s.len() == 0 {
        0
    } else {
        spec_sum_bytes(s.drop_last()) + s.last()
    }
}

/// The additive checksum: seed plus the byte sum, reduced to a byte.
pub open spec fn spec_additive_checksum(seed: u8, s: Seq<u8>) -> int {
    (seed + spec_sum_bytes(s)) % 256
}

/// Computes the additive checksum of `data` with the given seed, one
/// wrapping byte addition per element.
pub fn additive_checksum(seed: u8, data: &[u8]) -> (r: u8)
    ensures
        r == spec_additive_checksum(seed, data@),
{
    let mut checksum: u8 = seed;
    let mut i: usize = 0;
    proof {
        assert(data@.subrange(0, 0) =~= Seq::<u8>::empty());
        lemma_small_mod(seed as nat, 256);
    }
    while i < data.len()
        invariant
            i <= data@.len(),
            checksum == spec_additive_checksum(seed, data@.subrange(0, i as int)),
        decreases data@.len() - i,
    {
        proof {
            let prefix = data@.subrange(0, i as int);
            let next = data@.subrange(0, i + 1);
            assert(next.drop_last() =~= prefix);
            assert(next.last() == data@[i as int]);
            lemma_mod_adds(seed + spec_sum_bytes(prefix), data@[i as int] as int, 256);
            lemma_mod_adds(checksum as int, data@[i as int] as int, 256);
            lemma_small_mod(checksum as nat, 256);
        }
        checksum = checksum.wrapping_add(data[i]);
        i = i + 1;
    }
    proof {
        assert(data@.subrange(0, data@.len() as int) =~= data@);
    }
    checksum
}

/// Two sequences of equal length that differ in exactly one position have
/// byte sums that differ by exactly that position's difference.
proof fn lemma_sum_bytes_single_change(s: Seq<u8>, t: Seq<u8>, i: int)
    requires
        s.len() == t.len(),
        0 <= i < s.len(),
        forall|j: int| 0 <= j < s.len() && j != i ==> s[j] == t[j],
    ensures
        spec_sum_bytes(t) == spec_sum_bytes(s) - s[i] + t[i],
    decreases s.len(),
{
    if i == s.len() - 1 {
        assert(t.drop_last() =~= s.drop_last());
    } else {
        lemma_sum_bytes_single_change(s.drop_last(), t.drop_last(), i);
    }
}

/// An additive checksum that validates stops validating when any single
/// byte of the protected block (data or stored checksum) is corrupted.
pub proof fn lemma_additive_checksum_detects_corruption(
    seed: u8,
    data: Seq<u8>,
    corrupted: Seq<u8>,
    count: int,
    i: int,
)
    requires
        data.len() == corrupted.len(),
        0 < count < data.len(),
        0 <= i <= count,
        corrupted[i] != data[i],
        forall|j: int| 0 <= j <= count && j != i ==> corrupted[j] == data[j],
        spec_additive_checksum(seed, data.subrange(0, count)) == data[count],
    ensures
        spec_additive_checksum(seed, corrupted.subrange(0, count)) != corrupted[count],
{
    let ds = data.subrange(0, count);
    let cs = corrupted.subrange(0, count);
    if i == count {
        assert(cs =~= ds);
    } else {
        lemma_sum_bytes_single_change(ds, cs, i);
        let x = seed + spec_sum_bytes(ds);
        let y = seed + spec_sum_bytes(cs);
        let delta = corrupted[i] - data[i];
        assert(y == x + delta);
        if x % 256 == y % 256 {
            lemma_mod_equivalence(y, x, 256);
            assert((y - x) % 256 == 0);
            if delta > 0 {
                lemma_small_mod(delta as nat, 256);
            } else {
                lemma_mod_equivalence(x, y, 256);
                lemma_small_mod((-delta) as nat, 256);
            }
            assert(false);
        }
    }
}

} // verus!
