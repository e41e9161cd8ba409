//! Random draws, taken from the `rand` crate behind a single trusted wrapper.
//!
//! Every update rule that uses randomness takes the draw as a plain milli
//! value in `[0, 1000)` and is verified for every value a draw can take;
//! nothing downstream depends on the distribution.

use vstd::prelude::*;

verus! {

/// One uniform draw in `[0, 1000)` milli, standing for a real in `[0, 1)`.
///
/// Relies on `rand::Rng::gen_range` over the non-empty range `0..1000`,
/// which returns a value inside the range and does not panic.
#[verifier::external_body]
pub fn rand_milli() -> (r: i64)
    ensures
        0 <= r < 1000,
{
    rand::Rng::gen_range(&mut rand::thread_rng(), 0i64..1000i64)
}

/// One uniform draw centred on zero: `[-500, 500)` milli.
pub fn rand_centered_milli() -> (r: i64)
    ensures
        -500 <= r < 500,
{
    rand_milli() - 500
}

} // verus!
