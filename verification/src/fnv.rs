//! FNV-1a 64-bit folding, specified and verified.
//!
//! The account container hashes its logical content with FNV-1a. The spec
//! functions here define the fold mathematically; the executable functions
//! are proved to compute exactly those folds.

use vstd::prelude::*;

verus! {

/// The FNV-1a 64-bit offset basis.
pub const FNV_OFFSET_BASIS: u64 = 0xcbf2_9ce4_8422_2325;

/// The FNV-1a 64-bit prime.
pub const FNV_PRIME: u64 = 0x0000_0100_0000_01b3;

/// Folds one byte into a running FNV-1a state: xor, then wrapping multiply
/// by the FNV prime.
pub open spec fn fnv1a_byte(h: u64, b: u8) -> u64 {
    vstd::wrapping::u64_specs::wrapping_mul(h ^ (b as u64), FNV_PRIME)
}

/// Folds a byte sequence into a running FNV-1a state, left to right.
pub open spec fn fnv1a_bytes(h: u64, s: Seq<u8>) -> u64
    decreases s.len(),
{
    if s.len() <= 0 {
        h
    } else {
        fnv1a_bytes(fnv1a_byte(h, s[0]), s.drop_first())
    }
}

/// Folds the `n` lowest little-endian bytes of `x` into the state.
pub open spec fn fnv1a_word_rec(h: u64, x: u64, n: nat) -> u64
    decreases n,
{
    if n == 0 {
        h
    } else {
        fnv1a_word_rec(fnv1a_byte(h, (x % 256) as u8), x / 256, (n - 1) as nat)
    }
}

/// Folds all eight little-endian bytes of a 64-bit word into the state.
pub open spec fn fnv1a_word(h: u64, x: u64) -> u64 {
    fnv1a_word_rec(h, x, 8)
}

/// Folds one byte, executably.
pub fn fnv1a_fold_byte(h: u64, b: u8) -> (r: u64)
    ensures
        r == fnv1a_byte(h, b),
{
    (h ^ (b as u64)).wrapping_mul(FNV_PRIME)
}

/// Folds a byte slice, executably.
pub fn fnv1a_fold_bytes(h: u64, s: &[u8]) -> (r: u64)
    ensures
        r == fnv1a_bytes(h, s@),
{
    let mut acc: u64 = h;
    let mut i: usize = 0;
    proof {
        assert(s@.skip(0) =~= s@);
    }
    while i < s.len()
        invariant
            i <= s@.len(),
            fnv1a_bytes(acc, s@.skip(i as int)) == fnv1a_bytes(h, s@),
        decreases s@.len() - i,
    {
        proof {
            assert(s@.skip(i as int)[0] == s@[i as int]);
            assert(s@.skip(i as int).drop_first() =~= s@.skip(i as int + 1));
        }
        acc = fnv1a_fold_byte(acc, s[i]);
        i = i + 1;
    }
    proof {
        assert(s@.skip(i as int).len() == 0);
    }
    acc
}

/// Folds a 64-bit word, executably.
pub fn fnv1a_fold_word(h: u64, x: u64) -> (r: u64)
    ensures
        r == fnv1a_word(h, x),
{
    let mut acc: u64 = h;
    let mut v: u64 = x;
    let mut i: usize = 0;
    while i < 8
        invariant
            i <= 8,
            fnv1a_word_rec(acc, v, (8 - i) as nat) == fnv1a_word(h, x),
        decreases 8 - i,
    {
        acc = fnv1a_fold_byte(acc, (v % 256) as u8);
        v = v / 256;
        i = i + 1;
    }
    acc
}

} // verus!
