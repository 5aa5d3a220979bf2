//! Random jitter, drawn through `fastrand`.

use vstd::prelude::*;

verus! {

/// A random integer in `0..=max`, drawn by `fastrand::u32(0..=max)`. The
/// value is random; the only promise is the range, which `fastrand` documents
/// ("Generates a random `u32` in the given range"; it panics only on an empty
/// range, and `0..=max` is never empty).
#[verifier::external_body]
pub(crate) fn random_up_to(max: u32) -> (r: u32)
    ensures
        r <= max,
{
    fastrand::u32(0..=max)
}

} // verus!
