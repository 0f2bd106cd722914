//! The one-pole tone filter: a recursive smoothing pass over a sample
//! buffer, blending between a low-pass and a high-pass response.
//!
//! The filter value is a knob in `[-1, 1]` units (ppm): negative values
//! select the low-pass response with coefficient `-value`, positive
//! values the high-pass response with coefficient `value`, and zero
//! passes every sample through unchanged. The feedback state is the
//! previous output sample (clamped into 16-bit range, as stored) and
//! starts at 0 for every pass.
//!
//! The modulated pass recomputes the filter value for every sample as
//! the base value plus the modulation at the buffer position (millionths
//! of the buffer walked so far); the coefficient and the response are
//! re-chosen per sample, and the feedback state carries across the
//! whole pass. A modulated value may leave `[-1, 1]`; the recurrences
//! are still evaluated as written and only the output is clamped.

use vstd::prelude::*;

use crate::modulation::Modulation;
use crate::num::clamp_i16;
use crate::num::clamp_sample;
use crate::num::rdiv;
use crate::num::rdiv_i128;

verus! {

/// `v` clamped into `[-1, 1]` units (ppm): the range of the filter knob.
pub open spec fn clamp_signed_unit(v: int) -> int {
    if v < -1_000_000 {
        -1_000_000
    } else if v > 1_000_000 {
        1_000_000
    } else {
        v
    }
}

/// One filter step: the output for input `x` with feedback state
/// `prev` under filter value `v` (ppm). Positive `v` applies the
/// high-pass recurrence `(x - prev) * c + prev * (1 - c)` with `c = v`;
/// negative `v` the low-pass recurrence `prev * c + x * (1 - c)` with
/// `c = -v`; zero passes `x` through. The result is rounded half away
/// from zero and clamped into sample range.
pub open spec fn filter_step(v: int, prev: i16, x: i16) -> i16 {
    if v > 0 {
        clamp_i16(rdiv((x - prev) * v + prev * (1_000_000 - v), 1_000_000))
    } else if v < 0 {
        clamp_i16(rdiv(prev * (-v) + x * (1_000_000 - (-v)), 1_000_000))
    } else {
        x
    }
}

/// Feedback state before index `i` of a constant-value pass over `s`:
/// 0 at the start, then each output in turn.
pub open spec fn filter_prev(v: int, s: Seq<i16>, i: int) -> i16
    decreases i,
{
    if i <= 0 {
        0
    } else {
        filter_step(v, filter_prev(v, s, i - 1), s[i - 1])
    }
}

/// Output at index `i` of a constant-value pass over `s`.
pub open spec fn filter_out(v: int, s: Seq<i16>, i: int) -> i16 {
    filter_step(v, filter_prev(v, s, i), s[i])
}

/// The whole buffer a constant-value pass produces.
pub open spec fn filtered(v: int, s: Seq<i16>) -> Seq<i16> {
    Seq::new(s.len(), |i: int| filter_out(v, s, i))
}

/// Buffer position of index `i` in a buffer of `len` samples, in
/// millionths (rounded down): the argument the modulation source is
/// evaluated at during a modulated pass.
pub open spec fn buffer_position(len: int, i: int) -> int {
    (i * 1_000_000) / len
}

/// The filter value at index `i` of a modulated pass: the base value
/// plus the modulation at the buffer position.
pub open spec fn modulated_value<M: Modulation>(m: &M, base: int, len: int, i: int) -> int {
    base + m.spec_at(buffer_position(len, i))
}

/// Feedback state before index `i` of a modulated pass over `s`.
pub open spec fn mod_filter_prev<M: Modulation>(m: &M, base: int, s: Seq<i16>, i: int) -> i16
    decreases i,
{
    if i <= 0 {
        0
    } else {
        filter_step(
            modulated_value(m, base, s.len() as int, i - 1),
            mod_filter_prev(m, base, s, i - 1),
            s[i - 1],
        )
    }
}

/// Output at index `i` of a modulated pass over `s`.
pub open spec fn mod_filter_out<M: Modulation>(m: &M, base: int, s: Seq<i16>, i: int) -> i16 {
    filter_step(modulated_value(m, base, s.len() as int, i), mod_filter_prev(m, base, s, i), s[i])
}

/// A tone filter: one knob selecting the blend, kept in `[-1, 1]`
/// units by every mutation.
#[derive(Clone, Copy)]
pub struct Filter {
    filter_value_ppm: i32,
}

impl Filter {
    /// The filter knob, in ppm.
    pub closed spec fn spec_value(self) -> int {
        self.filter_value_ppm as int
    }

    /// The knob is within one unit either way.
    pub closed spec fn wf(self) -> bool {
        -1_000_000 <= self.filter_value_ppm <= 1_000_000
    }

    /// A bypassing filter: the knob at zero.
    pub fn new() -> (r: Filter)
        ensures
            r.wf(),
            r.spec_value() == 0,
    {
        Filter { filter_value_ppm: 0 }
    }

    /// Sets the filter knob, clamped into `[-1, 1]` units.
    pub fn set_value(&mut self, value_ppm: i64)
        ensures
            final(self).wf(),
            final(self).spec_value() == clamp_signed_unit(value_ppm as int),
    {
        self.filter_value_ppm = clamp_signed_unit_exec(value_ppm);
    }

    /// The filter knob, in ppm.
    pub fn value(&self) -> (r: i32)
        ensures
            r == self.spec_value(),
    {
        self.filter_value_ppm
    }

    /// Applies the filter to `samples` in place, feeding the state
    /// forward from 0 through the whole pass.
    pub fn set(&self, samples: &mut Vec<i16>)
        requires
            self.wf(),
        ensures
            final(samples)@ == filtered(self.spec_value(), old(samples)@),
    {
        let v: i64 = self.filter_value_ppm as i64;
        let ghost s = samples@;
        let n = samples.len();
        let mut out: Vec<i16> = Vec::new();
        let mut prev: i16 = 0;
        let mut i: usize = 0;
        while i < n
            invariant
                samples@ == s,
                n == s.len(),
                -1_000_000 <= v <= 1_000_000,
                v == self.spec_value(),
                i <= n,
                out.len() == i,
                prev == filter_prev(v as int, s, i as int),
                forall|j: int| 0 <= j < i ==> out@[j] == filter_out(v as int, s, j),
            decreases n - i,
        {
            let y = filter_step_exec(v, prev, samples[i]);
            out.push(y);
            prev = y;
            i = i + 1;
        }
        proof {
            assert(out@ =~= filtered(self.spec_value(), s));
        }
        *samples = out;
    }

    /// Applies the filter to `samples` in place with the knob
    /// modulated per sample: the base value plus the modulation at the
    /// buffer position.
    pub fn modulate<M: Modulation>(&self, samples: &mut Vec<i16>, modulation: &M)
        requires
            self.wf(),
            modulation.inv(),
        ensures
            final(samples)@.len() == old(samples)@.len(),
            forall|i: int|
                0 <= i < old(samples)@.len() ==> final(samples)@[i] == mod_filter_out(
                    modulation,
                    self.spec_value(),
                    old(samples)@,
                    i,
                ),
    {
        let base: i64 = self.filter_value_ppm as i64;
        let ghost s = samples@;
        let n = samples.len();
        let mut out: Vec<i16> = Vec::new();
        let mut prev: i16 = 0;
        let mut i: usize = 0;
        while i < n
            invariant
                samples@ == s,
                n == s.len(),
                -1_000_000 <= base <= 1_000_000,
                base == self.spec_value(),
                modulation.inv(),
                i <= n,
                out.len() == i,
                prev == mod_filter_prev(modulation, base as int, s, i as int),
                forall|j: int|
                    0 <= j < i ==> out@[j] == mod_filter_out(modulation, base as int, s, j),
            decreases n - i,
        {
            proof {
                assert(((i as int) * 1_000_000) / (n as int) < 1_000_000) by (nonlinear_arith)
                    requires 0 <= i < n;
                assert(((i as int) * 1_000_000) / (n as int) >= 0) by (nonlinear_arith)
                    requires 0 <= i < n;
            }
            let t: u64 = (((i as u128) * 1_000_000) / (n as u128)) as u64;
            let mval: i64 = modulation.at(t);
            let v: i64 = base + mval;
            let y = filter_step_exec(v, prev, samples[i]);
            out.push(y);
            prev = y;
            i = i + 1;
        }
        *samples = out;
    }
}

/// Clamps a filter knob into `[-1, 1]` units.
pub fn clamp_signed_unit_exec(v: i64) -> (r: i32)
    ensures
        r == clamp_signed_unit(v as int),
{
    if v < -1_000_000 {
        -1_000_000
    } else if v > 1_000_000 {
        1_000_000
    } else {
        v as i32
    }
}

/// Computes `filter_step` exactly for any filter value the base knob
/// and a modulation can reach together.
pub fn filter_step_exec(v: i64, prev: i16, x: i16) -> (y: i16)
    requires
        -4_000_000_000 <= v <= 4_000_000_000,
    ensures
        y == filter_step(v as int, prev, x),
{
    if v > 0 {
        proof {
            assert(-300_000_000_000_000int <= (x - prev) * v <= 300_000_000_000_000int
                && -300_000_000_000_000int <= prev * (1_000_000 - v) <= 300_000_000_000_000int)
                by (nonlinear_arith)
                requires
                    -65535 <= x - prev <= 65535,
                    -32768 <= prev <= 32767,
                    0 < v <= 4_000_000_000,
            ;
        }
        let num: i128 = ((x as i128) - (prev as i128)) * (v as i128) + (prev as i128) * (
        1_000_000 - (v as i128));
        let q = rdiv_i128(num, 1_000_000);
        clamp_sample(q)
    } else if v < 0 {
        proof {
            assert(-300_000_000_000_000int <= prev * (-v) <= 300_000_000_000_000int
                && -300_000_000_000_000int <= x * (1_000_000 - (-v)) <= 300_000_000_000_000int)
                by (nonlinear_arith)
                requires
                    -32768 <= x <= 32767,
                    -32768 <= prev <= 32767,
                    -4_000_000_000 <= v < 0,
            ;
        }
        let num: i128 = (prev as i128) * (-(v as i128)) + (x as i128) * (1_000_000 - (-(v
        as i128)));
        let q = rdiv_i128(num, 1_000_000);
        clamp_sample(q)
    } else {
        x
    }
}

/// A filter with the knob at zero is the identity transform: the
/// filtered buffer equals the input buffer exactly.
pub proof fn lemma_filter_identity(s: Seq<i16>)
    ensures
        filtered(0, s) =~= s,
{
}

} // verus!
