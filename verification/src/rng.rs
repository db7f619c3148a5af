//! Deterministic pseudo-randomness, built on the `fastrand` crate.
//!
//! A `fastrand::Rng` holds a single `u64` word of generator state; the crate
//! seeds it directly and advances it by one WyRand step per full-range draw.
//! The state a generator holds is named by [`rng_state`], the step and output
//! functions of a draw by [`rng_next`] and [`rng_out`]: both depend on the old
//! state alone, which is what makes every engine output a deterministic
//! function of the construction seed and the call sequence.
use vstd::prelude::*;

verus! {

use crate::fixed::UNIT;

#[verifier::external_type_specification]
#[verifier::external_body]
pub struct ExRng(fastrand::Rng);

/// The word of generator state a `fastrand::Rng` holds.
pub uninterp spec fn rng_state(r: fastrand::Rng) -> u64;

/// The generator state after one full-range draw from state `s`.
pub uninterp spec fn rng_next(s: u64) -> u64;

/// The value a full-range draw returns from state `s`.
pub uninterp spec fn rng_out(s: u64) -> u64;

/// Relies on `fastrand::Rng::with_seed`, which stores the seed directly as
/// the generator state.
#[verifier::external_body]
pub(crate) fn rng_with_seed(seed: u64) -> (r: fastrand::Rng)
    ensures
        rng_state(r) == seed,
{
    fastrand::Rng::with_seed(seed)
}

/// Relies on `fastrand::Rng::u64` over the full range: it advances the state
/// by one WyRand step and returns a value computed from the old state alone.
#[verifier::external_body]
pub(crate) fn rng_draw_u64(r: &mut fastrand::Rng) -> (out: u64)
    ensures
        rng_state(*final(r)) == rng_next(rng_state(*old(r))),
        out == rng_out(rng_state(*old(r))),
{
    r.u64(..)
}

/// The micro-unit value in `[0, 1)` a draw from state `s` yields.
pub open spec fn spec_draw_unit(s: u64) -> int {
    rng_out(s) as int % (UNIT as int)
}

/// Draw a micro-unit value in `[0, 1)` from the generator.
pub(crate) fn draw_unit(r: &mut fastrand::Rng) -> (d: i64)
    ensures
        rng_state(*final(r)) == rng_next(rng_state(*old(r))),
        d == spec_draw_unit(rng_state(*old(r))),
        0 <= d < UNIT,
{
    let raw = rng_draw_u64(r);
    (raw % (UNIT as u64)) as i64
}

/// The index in `[0, n)` a draw from state `s` picks.
pub open spec fn spec_draw_index(s: u64, n: int) -> int {
    rng_out(s) as int % n
}

/// Draw an index in `[0, n)` from the generator.
pub(crate) fn draw_index(r: &mut fastrand::Rng, n: u64) -> (i: usize)
    requires
        1 <= n <= 8,
    ensures
        rng_state(*final(r)) == rng_next(rng_state(*old(r))),
        i == spec_draw_index(rng_state(*old(r)), n as int),
        i < n,
{
    let raw = rng_draw_u64(r);
    (raw % n) as usize
}

} // verus!
