//! Properties of the comparison, stated over `bytes_equal`, the spec function
//! that every comparison's `ensures` gives its result by.

use vstd::prelude::*;

use crate::accumulate::{
    bytes_equal,
    lemma_accumulator_zero_iff_equal,
    lemma_xor_fold_swap,
    xor_fold,
};

verus! {

/// Every byte string equals itself, and folds with itself to zero.
pub proof fn lemma_reflexive(x: Seq<u8>)
    ensures
        bytes_equal(x, x),
        xor_fold(x, x, x.len()) == 0,
{
    lemma_accumulator_zero_iff_equal(x, x);
}

/// Comparing `a` with `b` gives the same answer as comparing `b` with `a`.
/// For strings of one length the accumulator does not depend on the order
/// either.
pub proof fn lemma_symmetric(a: Seq<u8>, b: Seq<u8>)
    ensures
        bytes_equal(a, b) == bytes_equal(b, a),
        a.len() == b.len() ==> xor_fold(a, b, a.len()) == xor_fold(b, a, b.len()),
{
    if a.len() == b.len() {
        lemma_xor_fold_swap(a, b, a.len());
    }
}

/// Two strings of one length that differ in some byte are unequal, wherever
/// that byte stands; the accumulator they fold to is then nonzero.
pub proof fn lemma_sensitive(a: Seq<u8>, b: Seq<u8>, i: int)
    requires
        a.len() == b.len(),
        0 <= i < a.len(),
        a[i] != b[i],
    ensures
        !bytes_equal(a, b),
        xor_fold(a, b, a.len()) != 0,
{
    lemma_accumulator_zero_iff_equal(a, b);
}

/// Strings of different lengths are unequal, whatever they hold.
pub proof fn lemma_length_mismatch(a: Seq<u8>, b: Seq<u8>)
    requires
        a.len() != b.len(),
    ensures
        !bytes_equal(a, b),
{
}

/// Two empty strings are equal.
pub proof fn lemma_empty()
    ensures
        bytes_equal(Seq::<u8>::empty(), Seq::<u8>::empty()),
{
}

/// A fixed-size comparison and the general one agree on the same contents:
/// an array and a slice that hold the same bytes compare alike.
pub proof fn lemma_fixed_size_consistent<const N: usize>(
    a: [u8; N],
    b: [u8; N],
    sa: Seq<u8>,
    sb: Seq<u8>,
)
    requires
        sa == a@,
        sb == b@,
    ensures
        bytes_equal(a@, b@) == bytes_equal(sa, sb),
        xor_fold(a@, b@, N as nat) == xor_fold(sa, sb, sa.len()),
{
    assert(a@.len() == N);
}

} // verus!
