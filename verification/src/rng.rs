//! Trusted boundary to the process-global random generator. Every verified
//! caller takes the drawn values as plain integers or booleans and states
//! what holds of every possible outcome; nothing is assumed of a draw
//! beyond its range.

use vstd::prelude::*;
use rand::Rng;

verus! {

/// Relies on rand's `Rng::gen_range` over an `i64` range: it returns a value
/// in `[lo, hi)` and panics on an empty range, which the precondition rules
/// out. Nothing more is assumed of the outcome.
#[verifier::external_body]
pub(crate) fn rand_range(lo: i64, hi: i64) -> (r: i64)
    requires
        lo < hi,
    ensures
        lo <= r < hi,
{
    rand::thread_rng().gen_range(lo..hi)
}

/// Relies on rand's `random::<bool>()`: a coin flip. Nothing at all is
/// assumed of the outcome; both values must be handled.
#[verifier::external_body]
pub(crate) fn rand_coin() -> (r: bool) {
    rand::random::<bool>()
}

} // verus!
