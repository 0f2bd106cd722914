//! The waveform generator: a periodic shape sampled at a fixed rate,
//! scaled by an amplitude knob, plus in-place frequency and amplitude
//! modulation passes over the generated buffer.
//!
//! Sample `i` sits at time `i / sample_rate`. The buffer holds
//! `round(sample_rate * duration)` samples. Each sample is the shape
//! value in `[-32767, 32767]` scaled by the amplitude (parts per
//! million), rounded half away from zero and clamped into the signed
//! 16-bit range.
//!
//! The sine and square shapes walk a wrapped fixed-point phase: the
//! sample is taken at the accumulated phase, which then advances by one
//! (possibly modulated) step. The triangle and sawtooth shapes are
//! exact rational functions of the sample index.

use vstd::prelude::*;

use crate::SynthError;
use crate::modulation::Modulation;
use crate::num::clamp_i16;
use crate::num::clamp_sample;
use crate::num::lemma_rdiv_bounds;
use crate::num::lemma_rdiv_exact;
use crate::num::lemma_rdiv_nonneg;
use crate::num::rdiv;
use crate::num::rdiv_i128;
use crate::num::rdiv_u128;
use crate::wave::lemma_phase_advance;
use crate::wave::lemma_phase_at_range;
use crate::wave::phase_at;
use crate::wave::phase_step;
use crate::wave::phase_step_exec;
use crate::wave::sine_value;
use crate::wave::sine_value_exec;
use crate::wave::square_value;

verus! {

/// The periodic shapes the generator can produce.
#[derive(Clone, Copy, Debug, PartialEq, Eq, Structural)]
pub enum Shape {
    Sine,
    Square,
    Triangle,
    Sawtooth,
}

/// Number of samples in a buffer of `duration_ms` milliseconds at
/// `sample_rate` hertz: `sample_rate * duration`, rounded to the
/// nearest whole sample.
pub open spec fn sample_count(sample_rate: int, duration_ms: int) -> int {
    rdiv(sample_rate * duration_ms, 1000)
}

/// Time of sample `i` in microseconds (rounded down): the argument the
/// modulation source is evaluated at during a modulation pass.
pub open spec fn mod_time(sample_rate: int, i: int) -> int {
    (i * 1_000_000) / sample_rate
}

/// A shape value in `[-32767, 32767]` scaled by the amplitude knob
/// (ppm), rounded half away from zero and clamped into sample range.
pub open spec fn scaled_sample(value: int, amplitude_ppm: int) -> i16 {
    clamp_i16(rdiv(value * amplitude_ppm, 1_000_000))
}

/// Sawtooth sample `i`: the cycle position `t * f` modulo one, mapped
/// linearly onto the full sample range and scaled by the amplitude.
pub open spec fn sawtooth_sample(sample_rate: int, frequency_mhz: int, amplitude_ppm: int, i: int) -> i16 {
    let d = 1000 * sample_rate;
    let r = (i * frequency_mhz) % d;
    clamp_i16(rdiv((2 * r - d) * 32767 * amplitude_ppm, d * 1_000_000))
}

/// Triangle sample `i`: with `u = t / f`, the value
/// `2 * |2 * (u - round(u))| - 1` mapped onto the full sample range and
/// scaled by the amplitude.
pub open spec fn triangle_sample(sample_rate: int, frequency_mhz: int, amplitude_ppm: int, i: int) -> i16 {
    let d = sample_rate * frequency_mhz;
    let n = 1000 * i;
    let m = (2 * n + d) / (2 * d);
    let w = n - d * m;
    let a2 = if w >= 0 {
        2 * w
    } else {
        -(2 * w)
    };
    clamp_i16(rdiv((2 * a2 - d) * 32767 * amplitude_ppm, d * 1_000_000))
}

/// Sample `i` of an unmodulated waveform.
pub open spec fn wave_sample(shape: Shape, sample_rate: int, frequency_mhz: int, amplitude_ppm: int, i: int) -> i16 {
    match shape {
        Shape::Sine => scaled_sample(
            sine_value(phase_at(phase_step(sample_rate, frequency_mhz), i)),
            amplitude_ppm,
        ),
        Shape::Square => scaled_sample(
            square_value(phase_at(phase_step(sample_rate, frequency_mhz), i)),
            amplitude_ppm,
        ),
        Shape::Triangle => triangle_sample(sample_rate, frequency_mhz, amplitude_ppm, i),
        Shape::Sawtooth => sawtooth_sample(sample_rate, frequency_mhz, amplitude_ppm, i),
    }
}

/// The whole buffer an unmodulated generation pass produces.
pub open spec fn wave_samples(shape: Shape, sample_rate: int, frequency_mhz: int, amplitude_ppm: int, n: int) -> Seq<i16> {
    Seq::new(n as nat, |i: int| wave_sample(shape, sample_rate, frequency_mhz, amplitude_ppm, i))
}

/// Phase of sample `i` under frequency modulation: each step advances
/// by the base step scaled by one unit plus the modulation value at the
/// time of the sample being left, wrapped into one cycle.
pub open spec fn fm_phase<M: Modulation>(m: &M, sample_rate: int, step: int, i: int) -> int
    decreases i,
{
    if i <= 0 {
        0
    } else {
        (fm_phase(m, sample_rate, step, i - 1) + rdiv(
            step * (1_000_000 + m.spec_at(mod_time(sample_rate, i - 1))),
            1_000_000,
        )) % 2_000_000
    }
}

/// Sample `i` after a frequency-modulation pass: the sine at the
/// modulated phase, scaled by the amplitude.
pub open spec fn fm_sample<M: Modulation>(m: &M, sample_rate: int, frequency_mhz: int, amplitude_ppm: int, i: int) -> i16 {
    scaled_sample(
        sine_value(fm_phase(m, sample_rate, phase_step(sample_rate, frequency_mhz), i)),
        amplitude_ppm,
    )
}

/// Sample `i` after an amplitude-modulation pass over previous sample
/// `x`: `x` rescaled by the modulation value at the sample's time.
/// No clamping is applied; the pass demands of its caller that every
/// rescaled value already fits the sample range.
pub open spec fn am_sample(x: int, m_value: int) -> int {
    rdiv(x * m_value, 1_000_000)
}

/// A generated waveform: the generation parameters and the sample
/// buffer of the most recent pass.
pub struct Oscillator {
    pub sample_rate: u32,
    pub frequency_mhz: u32,
    pub duration_ms: u64,
    pub amplitude_ppm: u32,
    pub samples: Vec<i16>,
}

impl Oscillator {
    /// Whether the parameters admit generation: a positive sample rate,
    /// a positive frequency, and an amplitude of at most one unit.
    pub open spec fn valid_params(self) -> bool {
        &&& self.sample_rate >= 1
        &&& self.frequency_mhz >= 1
        &&& self.amplitude_ppm <= 1_000_000
    }

    /// What a generation pass promises: the knobs are untouched, and on
    /// valid parameters the stored and returned buffer is the full
    /// waveform, while invalid parameters are rejected with no partial
    /// buffer committed.
    pub open spec fn generate_post(pre: Oscillator, post: Oscillator, shape: Shape, r: Result<Vec<i16>, SynthError>) -> bool {
        &&& post.sample_rate == pre.sample_rate
        &&& post.frequency_mhz == pre.frequency_mhz
        &&& post.duration_ms == pre.duration_ms
        &&& post.amplitude_ppm == pre.amplitude_ppm
        &&& if pre.valid_params() {
            &&& r is Ok
            &&& post.samples@ == wave_samples(
                shape,
                pre.sample_rate as int,
                pre.frequency_mhz as int,
                pre.amplitude_ppm as int,
                sample_count(pre.sample_rate as int, pre.duration_ms as int),
            )
            &&& r->Ok_0@ == post.samples@
        } else {
            &&& r is Err
            &&& r->Err_0 == SynthError::InvalidParameter
            &&& post.samples@ == pre.samples@
        }
    }

    /// A fresh generator with an empty buffer.
    pub fn new(sample_rate: u32, frequency_mhz: u32, duration_ms: u64, amplitude_ppm: u32) -> (r: Oscillator)
        ensures
            r.sample_rate == sample_rate,
            r.frequency_mhz == frequency_mhz,
            r.duration_ms == duration_ms,
            r.amplitude_ppm == amplitude_ppm,
            r.samples@ == Seq::<i16>::empty(),
    {
        Oscillator {
            sample_rate,
            frequency_mhz,
            duration_ms,
            amplitude_ppm,
            samples: Vec::new(),
        }
    }

    /// Generates the waveform for `shape`, stores it, and returns a
    /// copy. Parameters are checked before any work: a zero sample
    /// rate, a zero frequency or an amplitude above one unit is an
    /// `InvalidParameter`.
    pub fn generate(&mut self, shape: Shape) -> (r: Result<Vec<i16>, SynthError>)
        requires
            sample_count(old(self).sample_rate as int, old(self).duration_ms as int) <= usize::MAX,
        ensures
            Oscillator::generate_post(*old(self), *final(self), shape, r),
    {
        if self.sample_rate == 0 || self.frequency_mhz == 0 || self.amplitude_ppm > 1_000_000 {
            return Err(SynthError::InvalidParameter);
        }
        let sr = self.sample_rate;
        let f = self.frequency_mhz;
        let amp = self.amplitude_ppm;
        let ghost total = sample_count(sr as int, self.duration_ms as int);
        proof {
            assert((sr as int) * (self.duration_ms as int) <= 0x1_0000_0000_0000_0000_0000_0000int)
                by (nonlinear_arith)
                requires
                    0 <= sr <= 0xffff_ffff,
                    0 <= self.duration_ms <= 0xffff_ffff_ffff_ffff,
            ;
        }
        let prod: u128 = (sr as u128) * (self.duration_ms as u128);
        let n128: u128 = rdiv_u128(prod, 1000);
        proof {
            lemma_rdiv_nonneg(prod as int, 1000);
        }
        let n: usize = n128 as usize;
        let step: i64 = phase_step_exec(sr, f);
        let mut phase: i64 = 0;
        let mut out: Vec<i16> = Vec::new();
        let mut i: usize = 0;
        proof {
            assert(phase_at(step as int, 0) == 0) by {
                assert(0int * step == 0);
            }
        }
        while i < n
            invariant
                0 <= step <= 8_600_000_000_000,
                sr >= 1,
                f >= 1,
                amp <= 1_000_000,
                step == phase_step(sr as int, f as int),
                i <= n,
                n == total,
                out.len() == i,
                0 <= phase < 2_000_000,
                phase == phase_at(step as int, i as int),
                forall|j: int|
                    0 <= j < i ==> out@[j] == wave_sample(shape, sr as int, f as int, amp as int, j),
            decreases n - i,
        {
            let v: i16 = match shape {
                Shape::Sine => {
                    let s = sine_value_exec(phase);
                    scale_to_sample(s, amp)
                },
                Shape::Square => {
                    let s: i64 = if phase <= 1_000_000 {
                        32767
                    } else {
                        -32767
                    };
                    scale_to_sample(s, amp)
                },
                Shape::Triangle => triangle_sample_exec(sr, f, amp, i),
                Shape::Sawtooth => sawtooth_sample_exec(sr, f, amp, i),
            };
            out.push(v);
            proof {
                lemma_phase_advance(step as int, i as int);
                lemma_phase_at_range(step as int, i as int + 1);
            }
            phase = (phase + step) % 2_000_000;
            i = i + 1;
        }
        proof {
            assert(out@ =~= wave_samples(shape, sr as int, f as int, amp as int, total));
        }
        self.samples = out;
        Ok(copy_samples(&self.samples))
    }

    /// Generates a sine wave (see `generate`).
    pub fn sine_wave(&mut self) -> (r: Result<Vec<i16>, SynthError>)
        requires
            sample_count(old(self).sample_rate as int, old(self).duration_ms as int) <= usize::MAX,
        ensures
            Oscillator::generate_post(*old(self), *final(self), Shape::Sine, r),
    {
        self.generate(Shape::Sine)
    }

    /// Generates a square wave (see `generate`).
    pub fn square_wave(&mut self) -> (r: Result<Vec<i16>, SynthError>)
        requires
            sample_count(old(self).sample_rate as int, old(self).duration_ms as int) <= usize::MAX,
        ensures
            Oscillator::generate_post(*old(self), *final(self), Shape::Square, r),
    {
        self.generate(Shape::Square)
    }

    /// Generates a triangle wave (see `generate`).
    pub fn triangle_wave(&mut self) -> (r: Result<Vec<i16>, SynthError>)
        requires
            sample_count(old(self).sample_rate as int, old(self).duration_ms as int) <= usize::MAX,
        ensures
            Oscillator::generate_post(*old(self), *final(self), Shape::Triangle, r),
    {
        self.generate(Shape::Triangle)
    }

    /// Generates a sawtooth wave (see `generate`).
    pub fn sawtooth_wave(&mut self) -> (r: Result<Vec<i16>, SynthError>)
        requires
            sample_count(old(self).sample_rate as int, old(self).duration_ms as int) <= usize::MAX,
        ensures
            Oscillator::generate_post(*old(self), *final(self), Shape::Sawtooth, r),
    {
        self.generate(Shape::Sawtooth)
    }

    /// Frequency modulation: recomputes every sample of the buffer by
    /// phase accumulation. Each sample is the sine at the accumulated
    /// phase; the phase then advances by the base step scaled by one
    /// unit plus the modulation value at the sample's time, and wraps
    /// into one cycle (in exact tick arithmetic, repeated subtraction
    /// of a full cycle and the remainder agree). The pass starts from a
    /// phase of zero, so repeated passes do not compose.
    pub fn fm<M: Modulation>(&mut self, modulation: &M)
        requires
            old(self).sample_rate >= 1,
            modulation.inv(),
            old(self).samples@.len() * 1_000_000 <= u64::MAX,
        ensures
            final(self).sample_rate == old(self).sample_rate,
            final(self).frequency_mhz == old(self).frequency_mhz,
            final(self).duration_ms == old(self).duration_ms,
            final(self).amplitude_ppm == old(self).amplitude_ppm,
            final(self).samples@.len() == old(self).samples@.len(),
            forall|i: int|
                0 <= i < old(self).samples@.len() ==> final(self).samples@[i] == fm_sample(
                    modulation,
                    old(self).sample_rate as int,
                    old(self).frequency_mhz as int,
                    old(self).amplitude_ppm as int,
                    i,
                ),
    {
        let sr = self.sample_rate;
        let f = self.frequency_mhz;
        let amp = self.amplitude_ppm;
        let n = self.samples.len();
        let step: i64 = phase_step_exec(sr, f);
        let mut phase: i64 = 0;
        let mut out: Vec<i16> = Vec::new();
        let mut i: usize = 0;
        while i < n
            invariant
                0 <= step <= 8_600_000_000_000,
                sr >= 1,
                modulation.inv(),
                n * 1_000_000 <= u64::MAX,
                step == phase_step(sr as int, f as int),
                i <= n,
                out.len() == i,
                0 <= phase < 2_000_000,
                phase == fm_phase(modulation, sr as int, step as int, i as int),
                forall|j: int|
                    0 <= j < i ==> out@[j] == fm_sample(modulation, sr as int, f as int, amp as int, j),
            decreases n - i,
        {
            let s = sine_value_exec(phase);
            let v = scale_to_sample(s, amp);
            out.push(v);
            let t: u64 = ((i as u64) * 1_000_000) / (sr as u64);
            let mval: i64 = modulation.at(t);
            let factor: i64 = 1_000_000 + mval;
            proof {
                assert(0 <= (step as int) * (factor as int) <= 9_000_000_000_000_000_000_000int)
                    by (nonlinear_arith)
                    requires
                        0 <= step <= 8_600_000_000_000,
                        0 <= factor <= 1_001_000_000,
                ;
                lemma_rdiv_nonneg(step * factor, 1_000_000);
                lemma_rdiv_bounds(step * factor, 1_000_000, 9_000_000_000_000_000int);
            }
            let inc128: i128 = rdiv_i128((step as i128) * (factor as i128), 1_000_000);
            let inc: i64 = inc128 as i64;
            phase = (phase + inc) % 2_000_000;
            i = i + 1;
        }
        proof {
            assert(out@.len() == self.samples@.len());
        }
        self.samples = out;
    }

    /// Amplitude modulation: rescales every sample by the modulation
    /// value at the sample's time, rounding half away from zero. No
    /// clamping is applied; the caller must hand in a buffer and a
    /// modulation whose rescaled values all fit the sample range.
    pub fn am<M: Modulation>(&mut self, modulation: &M)
        requires
            old(self).sample_rate >= 1,
            modulation.inv(),
            old(self).samples@.len() * 1_000_000 <= u64::MAX,
            forall|i: int|
                0 <= i < old(self).samples@.len() ==> i16::MIN <= #[trigger] am_sample(
                    old(self).samples@[i] as int,
                    modulation.spec_at(mod_time(old(self).sample_rate as int, i)),
                ) <= i16::MAX,
        ensures
            final(self).sample_rate == old(self).sample_rate,
            final(self).frequency_mhz == old(self).frequency_mhz,
            final(self).duration_ms == old(self).duration_ms,
            final(self).amplitude_ppm == old(self).amplitude_ppm,
            final(self).samples@.len() == old(self).samples@.len(),
            forall|i: int|
                0 <= i < old(self).samples@.len() ==> final(self).samples@[i] == am_sample(
                    old(self).samples@[i] as int,
                    modulation.spec_at(mod_time(old(self).sample_rate as int, i)),
                ),
    {
        let sr = self.sample_rate;
        let n = self.samples.len();
        let ghost pre = self.samples@;
        let mut out: Vec<i16> = Vec::new();
        let mut i: usize = 0;
        while i < n
            invariant
                sr >= 1,
                sr == old(self).sample_rate,
                modulation.inv(),
                n * 1_000_000 <= u64::MAX,
                i <= n,
                out.len() == i,
                self.samples@ == pre,
                n == pre.len(),
                forall|j: int|
                    0 <= j < n ==> i16::MIN <= #[trigger] am_sample(
                        pre[j] as int,
                        modulation.spec_at(mod_time(sr as int, j)),
                    ) <= i16::MAX,
                forall|j: int|
                    0 <= j < i ==> out@[j] == am_sample(
                        pre[j] as int,
                        modulation.spec_at(mod_time(sr as int, j)),
                    ),
            decreases n - i,
        {
            let t: u64 = ((i as u64) * 1_000_000) / (sr as u64);
            let mval: i64 = modulation.at(t);
            let x: i16 = self.samples[i];
            proof {
                assert(-40_000_000_000_000int <= (x as int) * (mval as int) <= 40_000_000_000_000int)
                    by (nonlinear_arith)
                    requires
                        -32768 <= x <= 32767,
                        -1_000_000 <= mval <= 1_000_000_000,
                ;
            }
            let prod: i128 = (x as i128) * (mval as i128);
            let q: i128 = rdiv_i128(prod, 1_000_000);
            proof {
                assert(q == am_sample(pre[i as int] as int, modulation.spec_at(mod_time(sr as int, i as int))));
            }
            out.push(q as i16);
            i = i + 1;
        }
        self.samples = out;
    }
}

/// A copy of a sample buffer.
fn copy_samples(v: &Vec<i16>) -> (r: Vec<i16>)
    ensures
        r@ == v@,
{
    let mut out: Vec<i16> = Vec::new();
    let mut i: usize = 0;
    while i < v.len()
        invariant
            i <= v.len(),
            out.len() == i,
            forall|j: int| 0 <= j < i ==> out@[j] == v@[j],
        decreases v.len() - i,
    {
        out.push(v[i]);
        i = i + 1;
    }
    proof {
        assert(out@ =~= v@);
    }
    out
}

/// Scales a shape value by the amplitude knob: the product in ppm,
/// rounded half away from zero and clamped into sample range.
fn scale_to_sample(value: i64, amplitude_ppm: u32) -> (r: i16)
    requires
        -32767 <= value <= 32767,
    ensures
        r == scaled_sample(value as int, amplitude_ppm as int),
{
    proof {
        assert(-200_000_000_000_000int <= (value as i128) * (amplitude_ppm as i128)
            <= 200_000_000_000_000int) by (nonlinear_arith)
            requires
                -32767 <= value <= 32767,
                0 <= amplitude_ppm <= 4_294_967_295,
        ;
    }
    let prod: i128 = (value as i128) * (amplitude_ppm as i128);
    let q: i128 = rdiv_i128(prod, 1_000_000);
    clamp_sample(q)
}

/// Computes `sawtooth_sample` exactly.
fn sawtooth_sample_exec(sample_rate: u32, frequency_mhz: u32, amplitude_ppm: u32, i: usize) -> (r: i16)
    requires
        sample_rate >= 1,
        frequency_mhz >= 1,
        amplitude_ppm <= 1_000_000,
    ensures
        r == sawtooth_sample(sample_rate as int, frequency_mhz as int, amplitude_ppm as int, i as int),
{
    let d: u128 = 1000 * (sample_rate as u128);
    proof {
        assert(0 <= (i as int) * (frequency_mhz as int) <= 0x1_0000_0000_0000_0000_0000_0000int)
            by (nonlinear_arith)
            requires
                0 <= i <= 0xffff_ffff_ffff_ffff,
                0 <= frequency_mhz <= 0xffff_ffff,
        ;
        vstd::arithmetic::div_mod::lemma_mod_division_less_than_divisor(
            (i as int) * (frequency_mhz as int),
            d as int,
        );
    }
    let rm: u128 = ((i as u128) * (frequency_mhz as u128)) % d;
    let t1: i128 = 2 * (rm as i128) - (d as i128);
    proof {
        assert(-200_000_000_000_000_000_000_000_000int <= (t1 as int * 32767) * (amplitude_ppm as int)
            <= 200_000_000_000_000_000_000_000_000int) by (nonlinear_arith)
            requires
                -150_000_000_000_000_000int <= t1 as int * 32767 <= 150_000_000_000_000_000int,
                0 <= amplitude_ppm <= 1_000_000,
        ;
    }
    let num: i128 = (t1 * 32767) * (amplitude_ppm as i128);
    let den: i128 = (d as i128) * 1_000_000;
    let q: i128 = rdiv_i128(num, den);
    clamp_sample(q)
}

/// Computes `triangle_sample` exactly.
fn triangle_sample_exec(sample_rate: u32, frequency_mhz: u32, amplitude_ppm: u32, i: usize) -> (r: i16)
    requires
        sample_rate >= 1,
        frequency_mhz >= 1,
        amplitude_ppm <= 1_000_000,
    ensures
        r == triangle_sample(sample_rate as int, frequency_mhz as int, amplitude_ppm as int, i as int),
{
    proof {
        assert(1 <= (sample_rate as int) * (frequency_mhz as int) <= 0x1_0000_0000_0000_0000int)
            by (nonlinear_arith)
            requires
                1 <= sample_rate <= 4_294_967_295,
                1 <= frequency_mhz <= 4_294_967_295,
        ;
    }
    let d: u128 = (sample_rate as u128) * (frequency_mhz as u128);
    let n: u128 = 1000 * (i as u128);
    let rem: u128 = (2 * n + d) % (2 * d);
    let ghost m = (2 * (n as int) + d) / (2 * (d as int));
    proof {
        vstd::arithmetic::div_mod::lemma_fundamental_div_mod(2 * (n as int) + d, 2 * (d as int));
        assert(2 * (d as int) * m == 2 * ((d as int) * m)) by (nonlinear_arith);
        vstd::arithmetic::div_mod::lemma_mod_division_less_than_divisor(
            2 * (n as int) + d,
            2 * (d as int),
        );
    }
    let two_w: i128 = (rem as i128) - (d as i128);
    let a2: i128 = if two_w >= 0 {
        two_w
    } else {
        -two_w
    };
    let t1: i128 = 2 * a2 - (d as i128);
    proof {
        let ghost w = (n as int) - (d as int) * m;
        assert(a2 == if w >= 0 { 2 * w } else { -(2 * w) });
        assert(-700_000_000_000_000_000_000_000_000_000int <= (t1 as int * 32767) * (amplitude_ppm as int)
            <= 700_000_000_000_000_000_000_000_000_000int) by (nonlinear_arith)
            requires
                -700_000_000_000_000_000_000_000int <= t1 as int * 32767 <= 700_000_000_000_000_000_000_000int,
                0 <= amplitude_ppm <= 1_000_000,
        ;
    }
    let num: i128 = (t1 * 32767) * (amplitude_ppm as i128);
    let den: i128 = (d as i128) * 1_000_000;
    let q: i128 = rdiv_i128(num, den);
    clamp_sample(q)
}

/// With the identity modulation (zero everywhere) the modulated phase
/// walk is plain phase accumulation: frequency modulation by zero
/// degenerates to the unmodulated sine.
pub proof fn lemma_fm_zero_phase<M: Modulation>(m: &M, sample_rate: int, step: int, i: int)
    requires
        step >= 0,
        i >= 0,
        forall|t: int| m.spec_at(t) == 0,
    ensures
        fm_phase(m, sample_rate, step, i) == phase_at(step, i),
    decreases i,
{
    if i == 0 {
        assert(0int * step == 0);
    } else {
        lemma_fm_zero_phase(m, sample_rate, step, i - 1);
        lemma_rdiv_exact(step, 1_000_000);
        assert(step * 1_000_000 == step * (1_000_000 + m.spec_at(mod_time(sample_rate, i - 1))));
        lemma_phase_advance(step, i - 1);
    }
}


/// At amplitude zero every shape generates an all-zero buffer of the
/// expected length.
pub proof fn lemma_zero_amplitude(shape: Shape, sample_rate: int, frequency_mhz: int, n: int)
    requires
        sample_rate >= 1,
        frequency_mhz >= 1,
        n >= 0,
    ensures
        wave_samples(shape, sample_rate, frequency_mhz, 0, n).len() == n,
        forall|i: int|
            0 <= i < n ==> wave_samples(shape, sample_rate, frequency_mhz, 0, n)[i] == 0i16,
{
    assert forall|i: int| 0 <= i < n implies wave_samples(shape, sample_rate, frequency_mhz, 0, n)[i]
        == 0i16 by {
        lemma_rdiv_exact(0, 1_000_000);
        match shape {
            Shape::Sine => {
                assert(sine_value(phase_at(phase_step(sample_rate, frequency_mhz), i)) * 0 == 0);
            },
            Shape::Square => {
                assert(square_value(phase_at(phase_step(sample_rate, frequency_mhz), i)) * 0 == 0);
            },
            Shape::Triangle => {
                let d = sample_rate * frequency_mhz;
                assert(sample_rate * frequency_mhz >= 1) by (nonlinear_arith)
                    requires
                        sample_rate >= 1,
                        frequency_mhz >= 1,
                ;
                assert(d * 1_000_000 >= 1) by (nonlinear_arith)
                    requires d >= 1;
                lemma_rdiv_exact(0, d * 1_000_000);
            },
            Shape::Sawtooth => {
                let d = 1000 * sample_rate;
                assert(d * 1_000_000 >= 1) by (nonlinear_arith)
                    requires d >= 1;
                lemma_rdiv_exact(0, d * 1_000_000);
            },
        }
    }
}

/// A sine buffer starts at zero: the first sample sits at time zero,
/// where the phase and the sine are zero.
pub proof fn lemma_sine_starts_at_zero(sample_rate: int, frequency_mhz: int, amplitude_ppm: int)
    ensures
        wave_sample(Shape::Sine, sample_rate, frequency_mhz, amplitude_ppm, 0) == 0i16,
{
    let step = phase_step(sample_rate, frequency_mhz);
    assert(0 * step == 0);
    crate::wave::lemma_sine_zero();
    assert(sine_value(phase_at(step, 0)) * amplitude_ppm == 0);
    lemma_rdiv_exact(0, 1_000_000);
}

/// A sine sample taken a quarter cycle into the phase walk is the full
/// amplitude-scaled crest: with the quarter period landing on sample
/// `i`, the sample is `amplitude * 32767` exactly (up to the one
/// rounding of the amplitude scaling).
pub proof fn lemma_sine_quarter_crest(sample_rate: int, frequency_mhz: int, amplitude_ppm: int, i: int)
    requires
        phase_at(phase_step(sample_rate, frequency_mhz), i) == 500_000,
    ensures
        wave_sample(Shape::Sine, sample_rate, frequency_mhz, amplitude_ppm, i) == clamp_i16(
            rdiv(32767 * amplitude_ppm, 1_000_000),
        ),
{
    crate::wave::lemma_sine_crest();
    let p = phase_at(phase_step(sample_rate, frequency_mhz), i);
    assert(sine_value(p) * amplitude_ppm == 32767 * amplitude_ppm) by (nonlinear_arith)
        requires sine_value(p) == 32767;
}

/// Every square-wave sample is the amplitude-scaled full positive
/// scale or its exact negation, never an intermediate value.
pub proof fn lemma_square_two_values(sample_rate: int, frequency_mhz: int, amplitude_ppm: int, i: int)
    ensures
        wave_sample(Shape::Square, sample_rate, frequency_mhz, amplitude_ppm, i) == clamp_i16(
            rdiv(32767 * amplitude_ppm, 1_000_000),
        ) || wave_sample(Shape::Square, sample_rate, frequency_mhz, amplitude_ppm, i) == clamp_i16(
            rdiv(-32767 * amplitude_ppm, 1_000_000),
        ),
{
    let p = phase_at(phase_step(sample_rate, frequency_mhz), i);
    if p <= 1_000_000 {
        assert(square_value(p) * amplitude_ppm == 32767 * amplitude_ppm);
    } else {
        assert(square_value(p) * amplitude_ppm == -32767 * amplitude_ppm) by (nonlinear_arith)
            requires square_value(p) == -32767;
    }
}

/// Frequency modulation by the zero modulation degenerates to the
/// plain sine wave: every modulated sample equals the unmodulated sine
/// sample of the same index.
pub proof fn lemma_fm_zero_degenerates<M: Modulation>(m: &M, sample_rate: int, frequency_mhz: int, amplitude_ppm: int, i: int)
    requires
        sample_rate >= 1,
        frequency_mhz >= 0,
        i >= 0,
        forall|t: int| m.spec_at(t) == 0,
    ensures
        fm_sample(m, sample_rate, frequency_mhz, amplitude_ppm, i) == wave_sample(
            Shape::Sine,
            sample_rate,
            frequency_mhz,
            amplitude_ppm,
            i,
        ),
{
    lemma_rdiv_nonneg(frequency_mhz * 2_000_000, 1000 * sample_rate);
    lemma_fm_zero_phase(m, sample_rate, phase_step(sample_rate, frequency_mhz), i);
}

} // verus!
