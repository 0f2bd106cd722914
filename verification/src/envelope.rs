//! The ADSR envelope shaper: a stateless map from elapsed time to a
//! level in `[0, 1]` (parts per million), evaluated against a
//! caller-supplied total duration.
//!
//! The four phases are contiguous: a linear attack ramp from 0 to one
//! unit over `attack`; a decay from one unit towards the sustain level
//! over `decay`, shaped by an optional curve that blends the linear
//! ramp (curve 0) into its square (curve of one unit); the sustain
//! level held until `release` before the end of the duration; a linear
//! release ramp from the sustain level to 0 ending at the duration.
//! Beyond the duration the level is 0. A zero-length phase is
//! instantaneous: its branch is empty and evaluation falls through to
//! the next phase, so no division by a zero-length phase is ever taken.
//!
//! The sustain level and the decay curve are clamped into `[0, 1]`
//! units at construction and on every mutation.

use vstd::prelude::*;

use crate::modulation::Modulation;
use crate::num::clamp_unit;
use crate::num::clamp_unit_exec;

verus! {

/// Envelope level at time `t` for attack `a`, decay `d`, sustain level
/// `s` (ppm), release `r`, decay curve `c` (ppm), and total span `dur`;
/// times share any one unit (the executable evaluator uses
/// microseconds). Divisions round down.
pub open spec fn envelope_level(a: int, d: int, s: int, r: int, c: int, t: int, dur: int) -> int {
    if t < a {
        (t * 1_000_000) / a
    } else if t < a + d {
        let p = ((t - a) * 1_000_000) / d;
        let shaped = ((1_000_000 - c) * p + c * ((p * p) / 1_000_000)) / 1_000_000;
        1_000_000 - (shaped * (1_000_000 - s)) / 1_000_000
    } else if t + r < dur {
        s
    } else if t < dur {
        let p = ((t + r - dur) * 1_000_000) / r;
        ((1_000_000 - p) * s) / 1_000_000
    } else {
        0
    }
}

/// An ADSR envelope: three phase lengths in microseconds, the sustain
/// level, and the optional decay curve.
pub struct AdsrEnvelope {
    attack_us: u64,
    decay_us: u64,
    sustain_ppm: u32,
    release_us: u64,
    decay_curve_ppm: Option<u32>,
}

impl AdsrEnvelope {
    /// The attack length, in microseconds.
    pub closed spec fn spec_attack(self) -> int {
        self.attack_us as int
    }

    /// The decay length, in microseconds.
    pub closed spec fn spec_decay(self) -> int {
        self.decay_us as int
    }

    /// The sustain level, in ppm.
    pub closed spec fn spec_sustain(self) -> int {
        self.sustain_ppm as int
    }

    /// The release length, in microseconds.
    pub closed spec fn spec_release(self) -> int {
        self.release_us as int
    }

    /// The decay curve, in ppm, where one is stored.
    pub closed spec fn spec_decay_curve(self) -> Option<int> {
        match self.decay_curve_ppm {
            Some(c) => Some(c as int),
            None => None,
        }
    }

    /// The decay curve the evaluator uses: a missing curve is linear.
    pub open spec fn spec_curve_or_linear(self) -> int {
        match self.spec_decay_curve() {
            Some(c) => c,
            None => 0,
        }
    }

    /// The clamped knobs are within one unit.
    pub closed spec fn wf(self) -> bool {
        &&& self.sustain_ppm <= 1_000_000
        &&& match self.decay_curve_ppm {
            Some(c) => c <= 1_000_000,
            None => true,
        }
    }

    /// The envelope level at `t` microseconds of a span of `dur`
    /// microseconds.
    pub open spec fn level_at(self, t: int, dur: int) -> int {
        envelope_level(
            self.spec_attack(),
            self.spec_decay(),
            self.spec_sustain(),
            self.spec_release(),
            self.spec_curve_or_linear(),
            t,
            dur,
        )
    }

    /// Builds an envelope. The sustain level and the decay curve are
    /// knob positions, not protocol input: out-of-range values are
    /// clamped into one unit, never rejected.
    pub fn new(attack_us: u64, decay_us: u64, sustain_ppm: i64, release_us: u64, decay_curve_ppm: Option<i64>) -> (r: AdsrEnvelope)
        ensures
            r.wf(),
            r.spec_attack() == attack_us,
            r.spec_decay() == decay_us,
            r.spec_release() == release_us,
            r.spec_sustain() == clamp_unit(sustain_ppm as int),
            r.spec_decay_curve() == match decay_curve_ppm {
                Some(c) => Some(clamp_unit(c as int)),
                None => None::<int>,
            },
    {
        let curve = match decay_curve_ppm {
            Some(c) => Some(clamp_unit_exec(c)),
            None => None,
        };
        AdsrEnvelope {
            attack_us,
            decay_us,
            sustain_ppm: clamp_unit_exec(sustain_ppm),
            release_us,
            decay_curve_ppm: curve,
        }
    }

    /// Sets the sustain level, clamped into one unit.
    pub fn set_sustain(&mut self, sustain_ppm: i64)
        requires
            old(self).wf(),
        ensures
            final(self).wf(),
            final(self).spec_sustain() == clamp_unit(sustain_ppm as int),
            final(self).spec_attack() == old(self).spec_attack(),
            final(self).spec_decay() == old(self).spec_decay(),
            final(self).spec_release() == old(self).spec_release(),
            final(self).spec_decay_curve() == old(self).spec_decay_curve(),
    {
        self.sustain_ppm = clamp_unit_exec(sustain_ppm);
    }

    /// Sets the decay curve, clamped into one unit.
    pub fn set_decay_curve(&mut self, decay_curve_ppm: i64)
        requires
            old(self).wf(),
        ensures
            final(self).wf(),
            final(self).spec_decay_curve() == Some(clamp_unit(decay_curve_ppm as int)),
            final(self).spec_attack() == old(self).spec_attack(),
            final(self).spec_decay() == old(self).spec_decay(),
            final(self).spec_release() == old(self).spec_release(),
            final(self).spec_sustain() == old(self).spec_sustain(),
    {
        self.decay_curve_ppm = Some(clamp_unit_exec(decay_curve_ppm));
    }

    /// The attack length, in microseconds.
    pub fn attack(&self) -> (r: u64)
        ensures
            r == self.spec_attack(),
    {
        self.attack_us
    }

    /// The decay length, in microseconds.
    pub fn decay(&self) -> (r: u64)
        ensures
            r == self.spec_decay(),
    {
        self.decay_us
    }

    /// The sustain level, in ppm.
    pub fn sustain(&self) -> (r: u32)
        ensures
            r == self.spec_sustain(),
    {
        self.sustain_ppm
    }

    /// The release length, in microseconds.
    pub fn release(&self) -> (r: u64)
        ensures
            r == self.spec_release(),
    {
        self.release_us
    }

    /// The decay curve, in ppm, where one is stored.
    pub fn decay_curve(&self) -> (r: Option<u32>)
        ensures
            r == self.decay_curve_view(),
    {
        self.decay_curve_ppm
    }

    /// The stored decay curve as the executable getter returns it.
    pub closed spec fn decay_curve_view(self) -> Option<u32> {
        self.decay_curve_ppm
    }

    /// Evaluates the envelope at `t_us` microseconds of a total span of
    /// `duration_us` microseconds. The level is within one unit.
    pub fn amplitude(&self, t_us: u64, duration_us: u64) -> (level: u32)
        requires
            self.wf(),
        ensures
            level == self.level_at(t_us as int, duration_us as int),
            level <= 1_000_000,
    {
        let a = self.attack_us;
        let d = self.decay_us;
        let r = self.release_us;
        let s = self.sustain_ppm;
        let c: u32 = match self.decay_curve_ppm {
            Some(c) => c,
            None => 0,
        };
        if t_us < a {
            proof {
                assert(((t_us as int) * 1_000_000) / (a as int) < 1_000_000) by (nonlinear_arith)
                    requires 0 <= t_us < a;
                assert(((t_us as int) * 1_000_000) / (a as int) >= 0) by (nonlinear_arith)
                    requires 0 <= t_us < a;
            }
            (((t_us as u128) * 1_000_000) / (a as u128)) as u32
        } else if (t_us as u128) < (a as u128) + (d as u128) {
            let p: u128 = (((t_us - a) as u128) * 1_000_000) / (d as u128);
            proof {
                assert(((t_us - a) * 1_000_000) / (d as int) < 1_000_000) by (nonlinear_arith)
                    requires
                        a <= t_us,
                        t_us - a < d,
                ;
            }
            proof {
                assert(p * p <= 1_000_000_000_000int) by (nonlinear_arith)
                    requires 0 <= p <= 1_000_000;
            }
            let q: u128 = (p * p) / 1_000_000;
            proof {
                assert((1_000_000 - c) * p + c * q <= 1_000_000_000_000int) by (nonlinear_arith)
                    requires
                        0 <= c <= 1_000_000,
                        0 <= p <= 1_000_000,
                        0 <= q <= 1_000_000,
                ;
            }
            let shaped: u128 = ((1_000_000 - c as u128) * p + (c as u128) * q) / 1_000_000;
            proof {
                assert(shaped * (1_000_000 - s) <= 1_000_000_000_000int) by (nonlinear_arith)
                    requires
                        0 <= shaped <= 1_000_000,
                        0 <= 1_000_000 - s <= 1_000_000,
                ;
            }
            let red: u128 = (shaped * ((1_000_000 - s) as u128)) / 1_000_000;
            1_000_000 - (red as u32)
        } else if (t_us as u128) + (r as u128) < (duration_us as u128) {
            s
        } else if t_us < duration_us {
            let num: u128 = (t_us as u128) + (r as u128) - (duration_us as u128);
            proof {
                assert(((num as int) * 1_000_000) / (r as int) < 1_000_000) by (nonlinear_arith)
                    requires 0 <= num < r;
            }
            let p: u128 = (num * 1_000_000) / (r as u128);
            proof {
                assert((1_000_000 - p) * s <= 1_000_000_000_000int) by (nonlinear_arith)
                    requires
                        0 <= p <= 1_000_000,
                        0 <= s <= 1_000_000,
                ;
            }
            (((1_000_000 - p) * (s as u128)) / 1_000_000) as u32
        } else {
            0
        }
    }
}

/// An envelope evaluated against a fixed total span, usable as the
/// modulation source of a frequency or amplitude pass: at `t`
/// microseconds the control value is the envelope level, in ppm.
pub struct EnvelopeModulation {
    envelope: AdsrEnvelope,
    duration_us: u64,
}

impl EnvelopeModulation {
    /// The envelope driving this source.
    pub closed spec fn spec_envelope(self) -> AdsrEnvelope {
        self.envelope
    }

    /// The total span the envelope is evaluated against.
    pub closed spec fn spec_duration(self) -> int {
        self.duration_us as int
    }

    /// Wraps an envelope and the span it is to be evaluated against.
    pub fn new(envelope: AdsrEnvelope, duration_us: u64) -> (r: EnvelopeModulation)
        requires
            envelope.wf(),
        ensures
            r.inv(),
            r.spec_envelope() == envelope,
            r.spec_duration() == duration_us,
    {
        EnvelopeModulation { envelope, duration_us }
    }
}

impl Modulation for EnvelopeModulation {
    closed spec fn spec_at(&self, t: int) -> int {
        self.envelope.level_at(t, self.duration_us as int)
    }

    closed spec fn inv(&self) -> bool {
        self.envelope.wf()
    }

    fn at(&self, t: u64) -> (m: i64) {
        self.envelope.amplitude(t, self.duration_us) as i64
    }
}

/// The envelope's boundary behaviour: it starts silent when an attack
/// phase exists, it is at full level where the attack hands over to a
/// decay phase, and it is silent from the end of the total span on,
/// whenever the three phases fit within the span.
pub proof fn lemma_envelope_boundaries(env: AdsrEnvelope, dur: int, t: int)
    requires
        env.wf(),
        env.spec_attack() + env.spec_decay() + env.spec_release() <= dur,
    ensures
        env.spec_attack() > 0 ==> env.level_at(0, dur) == 0,
        env.spec_decay() > 0 ==> env.level_at(env.spec_attack(), dur) == 1_000_000,
        t >= dur ==> env.level_at(t, dur) == 0,
{
    if env.spec_attack() > 0 {
        vstd::arithmetic::div_mod::lemma_div_of0(env.spec_attack());
    }
    if env.spec_decay() > 0 {
        let a = env.spec_attack();
        let d = env.spec_decay();
        let s = env.spec_sustain();
        let c = env.spec_curve_or_linear();
        vstd::arithmetic::div_mod::lemma_div_of0(d);
        let p = ((a - a) * 1_000_000) / d;
        assert(p == 0);
        assert(p * p == 0) by (nonlinear_arith)
            requires p == 0;
        let pp = (p * p) / 1_000_000;
        assert(pp == 0);
        assert((1_000_000 - c) * p == 0) by (nonlinear_arith)
            requires p == 0;
        assert(c * pp == 0) by (nonlinear_arith)
            requires pp == 0;
        let shaped = ((1_000_000 - c) * p + c * pp) / 1_000_000;
        assert(shaped == 0);
        assert(shaped * (1_000_000 - s) == 0) by (nonlinear_arith)
            requires shaped == 0;
        assert(env.level_at(a, dur) == 1_000_000);
    }
}

} // verus!
