use vstd::prelude::*;

verus! {

/// Relies on `std::hint::black_box`: an identity function whose argument the
/// optimizer must treat as used in some unknown way. Routing the accumulator
/// through it keeps the compiler from turning the fold into an early exit.
#[verifier::external_body]
#[inline]
pub(crate) fn optimizer_hide(value: u8) -> (r: u8)
    ensures
        r == value,
{
    std::hint::black_box(value)
}

} // verus!
