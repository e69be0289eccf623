//! Bounding a value between two limits.

use vstd::prelude::*;

verus! {

/// The value of `input` bounded by `min` and `max`.
pub open spec fn clamped(input: int, min: int, max: int) -> int {
    if input < min {
        min
    } else if input > max {
        max
    } else {
        input
    }
}

/// Calls `num::clamp` on `u64` values. Trusted: the result is `min` where
/// `input` is below it, `max` where `input` is above it, and `input`
/// otherwise. `num::clamp` may panic when `min > max`, so that is ruled out.
#[verifier::external_body]
pub(crate) fn clamp_u64(input: u64, min: u64, max: u64) -> (bounded: u64)
    requires
        min <= max,
    ensures
        bounded == clamped(input as int, min as int, max as int),
{
    num::clamp(input, min, max)
}

} // verus!
