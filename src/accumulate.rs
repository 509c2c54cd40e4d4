use vstd::prelude::*;

use crate::barrier::optimizer_hide;

verus! {

/// The accumulator after folding the first `n` positions of `a` and `b`:
/// the bitwise OR of `a[i] ^ b[i]` for every `i < n`.
pub open spec fn xor_fold(a: Seq<u8>, b: Seq<u8>, n: nat) -> u8
    decreases n,
{
    if n == 0 {
        0u8
    } else {
        xor_fold(a, b, (n - 1) as nat) | (a[n - 1] ^ b[n - 1])
    }
}

/// Two byte sequences hold the same bytes at the same positions.
pub open spec fn bytes_equal(a: Seq<u8>, b: Seq<u8>) -> bool {
    &&& a.len() == b.len()
    &&& forall|i: int| 0 <= i < a.len() ==> a[i] == b[i]
}

proof fn lemma_or_zero(x: u8, y: u8)
    ensures
        (x | y) == 0 <==> (x == 0 && y == 0),
{
    assert((x | y) == 0 <==> (x == 0 && y == 0)) by (bit_vector);
}

proof fn lemma_xor_zero(x: u8, y: u8)
    ensures
        (x ^ y) == 0 <==> x == y,
{
    assert((x ^ y) == 0 <==> x == y) by (bit_vector);
}

/// The fold over a prefix is zero exactly when the prefix agrees.
pub proof fn lemma_xor_fold_zero(a: Seq<u8>, b: Seq<u8>, n: nat)
    requires
        n <= a.len(),
        n <= b.len(),
    ensures
        xor_fold(a, b, n) == 0 <==> (forall|i: int| 0 <= i < n ==> a[i] == b[i]),
    decreases n,
{
    if n > 0 {
        let k = (n - 1) as nat;
        lemma_xor_fold_zero(a, b, k);
        lemma_or_zero(xor_fold(a, b, k), a[k as int] ^ b[k as int]);
        lemma_xor_zero(a[k as int], b[k as int]);
        if xor_fold(a, b, n) == 0 {
            assert forall|i: int| 0 <= i < n implies a[i] == b[i] by {
                if i < k {
                } else {
                    assert(i == k);
                }
            }
        }
    }
}

/// Swapping the two sequences leaves every prefix's accumulator unchanged.
pub proof fn lemma_xor_fold_swap(a: Seq<u8>, b: Seq<u8>, n: nat)
    requires
        n <= a.len(),
        n <= b.len(),
    ensures
        xor_fold(a, b, n) == xor_fold(b, a, n),
    decreases n,
{
    if n > 0 {
        let k = (n - 1) as nat;
        lemma_xor_fold_swap(a, b, k);
        let (x, y) = (a[k as int], b[k as int]);
        assert((x ^ y) == (y ^ x)) by (bit_vector);
    }
}

/// The accumulator is zero exactly when the two sequences are equal.
pub proof fn lemma_accumulator_zero_iff_equal(a: Seq<u8>, b: Seq<u8>)
    requires
        a.len() == b.len(),
    ensures
        (xor_fold(a, b, a.len()) == 0) == bytes_equal(a, b),
        bytes_equal(a, b) == (a == b),
{
    lemma_xor_fold_zero(a, b, a.len());
    if bytes_equal(a, b) {
        assert(a =~= b);
    }
}

/// Folds `a[i] ^ b[i]` over every position with `|`, touching each position
/// once whatever the bytes hold, and hands the result through the barrier.
/// The test against zero belongs to the caller.
pub fn constant_time_ne(a: &[u8], b: &[u8]) -> (r: u8)
    requires
        a@.len() == b@.len(),
    ensures
        r == xor_fold(a@, b@, a@.len()),
        (r == 0) == bytes_equal(a@, b@),
{
    let len = a.len();
    let mut tmp: u8 = 0;
    for i in 0..len
        invariant
            len == a@.len(),
            len == b@.len(),
            tmp == xor_fold(a@, b@, i as nat),
    {
        tmp |= a[i] ^ b[i];
    }
    proof {
        lemma_accumulator_zero_iff_equal(a@, b@);
    }
    optimizer_hide(tmp)
}

/// The same fold over two arrays of one fixed length, so that the length is
/// known at compile time and the loop can be unrolled.
pub fn constant_time_ne_n<const N: usize>(a: &[u8; N], b: &[u8; N]) -> (r: u8)
    ensures
        r == xor_fold(a@, b@, N as nat),
        (r == 0) == bytes_equal(a@, b@),
{
    let mut tmp: u8 = 0;
    for i in 0..N
        invariant
            a@.len() == N,
            b@.len() == N,
            tmp == xor_fold(a@, b@, i as nat),
    {
        tmp |= a[i] ^ b[i];
    }
    proof {
        lemma_accumulator_zero_iff_equal(a@, b@);
    }
    optimizer_hide(tmp)
}

} // verus!
