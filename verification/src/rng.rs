//! The one place the library draws randomness from the outside.
use vstd::prelude::*;

verus! {

/// Relies on rand::random_range over `0..n`: the documentation promises a
/// value in the given range, so strictly below `n`. The empty range, on
/// which it panics, is excluded by `requires`. Nothing more is promised of a
/// random draw.
#[verifier::external_body]
pub(crate) fn random_below(n: u64) -> (r: u64)
    requires
        0 < n,
    ensures
        r < n,
{
    rand::random_range(0..n)
}

} // verus!
