//! Comparison of byte strings in constant time: for two inputs of one length,
//! the work done depends on that length alone, never on where or whether the
//! bytes differ.

use vstd::prelude::*;

pub mod accumulate;
mod barrier;
pub mod laws;

pub use accumulate::{bytes_equal, constant_time_ne, constant_time_ne_n, xor_fold};

verus! {

/// Compares two byte strings of equal length in constant time.
///
/// Strings of different lengths are reported unequal at once: that test
/// looks at the lengths only and takes no care over timing. Only a
/// comparison of two strings of one length is protected.
pub fn constant_time_eq(a: &[u8], b: &[u8]) -> (r: bool)
    ensures
        r == bytes_equal(a@, b@),
        r == (a@ == b@),
{
    proof {
        if a@.len() == b@.len() {
            accumulate::lemma_accumulator_zero_iff_equal(a@, b@);
        }
    }
    a.len() == b.len() && constant_time_ne(a, b) == 0
}

/// Compares two 128-bit byte strings in constant time.
pub fn constant_time_eq_16(a: &[u8; 16], b: &[u8; 16]) -> (r: bool)
    ensures
        r == bytes_equal(a@, b@),
        r == (a@ == b@),
{
    proof {
        accumulate::lemma_accumulator_zero_iff_equal(a@, b@);
    }
    constant_time_ne_n(a, b) == 0
}

/// Compares two 256-bit byte strings in constant time.
pub fn constant_time_eq_32(a: &[u8; 32], b: &[u8; 32]) -> (r: bool)
    ensures
        r == bytes_equal(a@, b@),
        r == (a@ == b@),
{
    proof {
        accumulate::lemma_accumulator_zero_iff_equal(a@, b@);
    }
    constant_time_ne_n(a, b) == 0
}

/// Compares two 512-bit byte strings in constant time.
pub fn constant_time_eq_64(a: &[u8; 64], b: &[u8; 64]) -> (r: bool)
    ensures
        r == bytes_equal(a@, b@),
        r == (a@ == b@),
{
    proof {
        accumulate::lemma_accumulator_zero_iff_equal(a@, b@);
    }
    constant_time_ne_n(a, b) == 0
}

} // verus!
