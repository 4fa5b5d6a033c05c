//! The single source of randomness the simulation consumes: a uniform draw
//! from a half-open integer range.
//!
//! Everything decided by a draw — enemy variants, spawn positions, the
//! vertical weave — is computed from the returned value by verified code,
//! so every property proved there holds for every possible outcome.

use vstd::prelude::*;
use rand::Rng;

verus! {

/// Relies on rand's `thread_rng` and `Rng::gen_range` on `low..high`: a
/// sample from a non-empty half-open range lies in that range (`gen_range`
/// panics only on an empty range, which the precondition rules out).
#[verifier::external_body]
pub(crate) fn random_in_range(lo: i64, hi: i64) -> (r: i64)
    requires
        lo < hi,
    ensures
        lo <= r < hi,
{
    rand::thread_rng().gen_range(lo..hi)
}

} // verus!
