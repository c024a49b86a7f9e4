//! Phase arithmetic for the tick-driven oscillator.
//!
//! The oscillator maps a frame tick `t` and a cycle length `period` to a
//! value that swings smoothly between two bounds. Its output depends on
//! `t` only through the phase `t % period`, so the properties proved here
//! about the phase (periodicity, a zero start) carry over to the
//! oscillation as a whole.

use vstd::arithmetic::div_mod::{lemma_mod_multiples_vanish, lemma_small_mod};
use vstd::prelude::*;

verus! {

/// Where tick `t` falls within an oscillation cycle of `period` ticks.
pub open spec fn phase_spec(t: int, period: int) -> int
    recommends
        period > 0,
{
    t % period
}

/// Position of tick `t` within an oscillation cycle of `period` ticks,
/// as a number of ticks in `[0, period)`.
pub fn osc_phase(t: u64, period: u64) -> (r: u64)
    requires
        period > 0,
    ensures
        r == phase_spec(t as int, period as int),
        r < period,
{
    t % period
}

/// Advancing the tick by one full period leaves the phase unchanged, so
/// the oscillator is periodic in `t` with period `period`.
pub proof fn lemma_phase_periodic(t: int, period: int)
    requires
        period > 0,
    ensures
        phase_spec(t + period, period) == phase_spec(t, period),
{
    lemma_mod_multiples_vanish(1, t, period);
}

/// At tick zero the phase is zero: every cycle starts exactly at the
/// point where the oscillator crosses the midpoint of its bounds.
pub proof fn lemma_phase_zero(period: int)
    requires
        period > 0,
    ensures
        phase_spec(0, period) == 0,
{
    lemma_small_mod(0nat, period as nat);
}

} // verus!
