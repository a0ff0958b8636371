//! Trusted wrappers around the thread-local random number generator.

use vstd::prelude::*;

verus! {

/// Relies on rand::random_range with the range `0..n`: the result is drawn
/// from that range, so it is strictly below `n`. The range is non-empty, so
/// the call does not panic.
#[verifier::external_body]
pub(crate) fn gen_below(n: u32) -> (r: u32)
    requires
        0 < n,
    ensures
        r < n,
{
    rand::random_range(0..n)
}

/// Relies on rand::random::<bool>: a coin flip. Nothing is promised of the
/// value.
#[verifier::external_body]
pub(crate) fn gen_coin() -> bool {
    rand::random::<bool>()
}

} // verus!
