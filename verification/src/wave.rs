//! Fixed-point phase and waveform value computation.
//!
//! A full oscillator cycle is `PHASE_UNIT` (two million) phase ticks.
//! The sine is the rational half-wave approximation attributed to
//! Bhaskara I, scaled to the full signed 16-bit sample range; it is
//! exact at the quadrant points (0 at the start, crest 32767 a quarter
//! cycle in, 0 at the half cycle, trough -32767 at three quarters).
//!
//! The spec functions write the scales out as literals (one cycle is
//! 2_000_000 ticks, half a cycle 1_000_000, full sample scale 32767,
//! and 524_272 is 16 * 32767) so that every product has a literal
//! factor and stays within linear arithmetic.

use vstd::prelude::*;

use crate::num::rdiv;
use crate::num::lemma_rdiv_bounds;
use crate::num::lemma_rdiv_exact;

verus! {

/// Phase ticks in one full oscillator cycle.
pub const PHASE_UNIT: i64 = 2_000_000;

/// Phase ticks in half a cycle.
pub const HALF_PHASE: i64 = 1_000_000;

/// Largest sample magnitude produced by a full-scale waveform.
pub const SAMPLE_SCALE: i64 = 32767;

/// Sine over the first half cycle: for `q` phase ticks into the half
/// cycle (`0 <= q <= HALF_PHASE`), the value `32767 * sin(pi * q / HALF_PHASE)`
/// approximated by the rational form `16 q (H - q) / (5 H^2 - 4 q (H - q))`,
/// rounded half away from zero.
pub open spec fn half_sine(q: int) -> int {
    let w = q * (1_000_000 - q);
    rdiv(524_272 * w, 5_000_000_000_000 - 4 * w)
}

/// Full-cycle sine at phase `p` ticks, for `0 <= p < PHASE_UNIT`,
/// scaled to `[-32767, 32767]`: the first half cycle is `half_sine`,
/// the second its mirror image below zero.
pub open spec fn sine_value(p: int) -> int {
    if p <= 1_000_000 {
        half_sine(p)
    } else {
        -half_sine(p - 1_000_000)
    }
}

/// Square wave at phase `p` ticks: full positive scale while the sine
/// is non-negative (first half cycle), full negative scale after.
pub open spec fn square_value(p: int) -> int {
    if p <= 1_000_000 {
        32767
    } else {
        -32767
    }
}

/// Phase ticks a sample step advances the oscillator: the cycle
/// fraction `frequency / sample_rate` in ticks, with the frequency
/// given in millihertz, rounded to the nearest tick.
pub open spec fn phase_step(sample_rate: int, frequency_mhz: int) -> int {
    rdiv(frequency_mhz * 2_000_000, 1000 * sample_rate)
}

/// Phase of sample `i` when every step advances by `step` ticks from a
/// phase of zero, wrapped into one cycle.
pub open spec fn phase_at(step: int, i: int) -> int {
    (i * step) % 2_000_000
}

/// `half_sine` stays within the non-negative half of the sample range.
pub proof fn lemma_half_sine_bounds(q: int)
    requires
        0 <= q <= HALF_PHASE,
    ensures
        0 <= half_sine(q) <= SAMPLE_SCALE,
{
    let w = q * (1_000_000 - q);
    assert(0 <= q * (1_000_000 - q) && 4 * (q * (1_000_000 - q)) <= 1_000_000_000_000int)
        by (nonlinear_arith)
        requires 0 <= q <= 1_000_000;
    lemma_rdiv_bounds(524_272 * w, 5_000_000_000_000 - 4 * w, 32767);
}

/// The sine is exactly zero at the start of the cycle.
pub proof fn lemma_sine_zero()
    ensures
        sine_value(0) == 0,
{
    lemma_rdiv_exact(0, 5_000_000_000_000int);
}

/// The sine is exactly at full scale at the quarter-cycle crest, and
/// exactly at the negated full scale at the three-quarter trough.
pub proof fn lemma_sine_crest()
    ensures
        sine_value(500_000) == SAMPLE_SCALE,
        sine_value(1_500_000) == -SAMPLE_SCALE,
{
    lemma_rdiv_exact(32767, 4_000_000_000_000int);
}

/// Advancing a wrapped phase by one more step wraps to the phase of the
/// next sample index.
pub proof fn lemma_phase_advance(step: int, i: int)
    requires
        step >= 0,
        i >= 0,
    ensures
        (phase_at(step, i) + step) % 2_000_000 == phase_at(step, i + 1),
{
    let m = 2_000_000int;
    vstd::arithmetic::div_mod::lemma_add_mod_noop(i * step, step, m);
    vstd::arithmetic::div_mod::lemma_add_mod_noop_right((i * step) % m, step, m);
    assert((i + 1) * step == i * step + step) by (nonlinear_arith);
}

/// A wrapped phase lies within one cycle.
pub proof fn lemma_phase_at_range(step: int, i: int)
    requires
        step >= 0,
        i >= 0,
    ensures
        0 <= phase_at(step, i) < PHASE_UNIT,
{
    vstd::arithmetic::div_mod::lemma_mod_division_less_than_divisor(i * step, 2_000_000int);
    assert(i * step >= 0) by (nonlinear_arith)
        requires i >= 0, step >= 0;
}

/// Computes `half_sine(q)` exactly.
fn half_sine_exec(q: i64) -> (r: i64)
    requires
        0 <= q <= HALF_PHASE,
    ensures
        r == half_sine(q as int),
        0 <= r <= SAMPLE_SCALE,
{
    proof {
        assert(0 <= q * (1_000_000 - q) && 4 * (q * (1_000_000 - q)) <= 1_000_000_000_000int)
            by (nonlinear_arith)
            requires 0 <= q <= 1_000_000;
        lemma_half_sine_bounds(q as int);
    }
    let w: u64 = (q as u64) * ((1_000_000 - q) as u64);
    let num: u64 = 524_272 * w;
    let den: u64 = 5_000_000_000_000 - 4 * w;
    let r: u64 = (2 * num + den) / (2 * den);
    r as i64
}

/// Computes `sine_value(p)` exactly for a wrapped phase.
pub fn sine_value_exec(p: i64) -> (r: i64)
    requires
        0 <= p < PHASE_UNIT,
    ensures
        r == sine_value(p as int),
        -SAMPLE_SCALE <= r <= SAMPLE_SCALE,
{
    if p <= 1_000_000 {
        half_sine_exec(p)
    } else {
        -half_sine_exec(p - 1_000_000)
    }
}

/// Computes `phase_step(sample_rate, frequency_mhz)` exactly. The step
/// is bounded by the widest frequency the millihertz knob can hold.
pub fn phase_step_exec(sample_rate: u32, frequency_mhz: u32) -> (r: i64)
    requires
        sample_rate >= 1,
    ensures
        r == phase_step(sample_rate as int, frequency_mhz as int),
        0 <= r <= 8_600_000_000_000,
{
    let num: u64 = (frequency_mhz as u64) * 2_000_000;
    let den: u64 = 1000 * (sample_rate as u64);
    let r: u64 = (2 * num + den) / (2 * den);
    proof {
        lemma_rdiv_bounds(num as int, den as int, 8_600_000_000_000int);
    }
    r as i64
}

} // verus!
