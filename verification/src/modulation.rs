//! Modulation sources: time-varying control values handed to the
//! frequency, amplitude and filter modulation passes.
//!
//! A modulation source maps a time argument to a control value in parts
//! per million of one unit. The time argument is whatever the pass
//! supplies: microseconds of elapsed signal for the frequency and
//! amplitude passes, millionths of the buffer position for filter
//! sweeps. A value is never below -1 unit (which stalls an oscillator)
//! and never above 1000 units, the widest sweep the fixed-point step
//! arithmetic accommodates.

use vstd::prelude::*;

verus! {

/// Smallest control value a modulation source may produce, in ppm.
pub const MOD_MIN_PPM: i64 = -1_000_000;

/// Largest control value a modulation source may produce, in ppm.
pub const MOD_MAX_PPM: i64 = 1_000_000_000;

pub trait Modulation {
    /// The mathematical control value at time `t`, in ppm.
    spec fn spec_at(&self, t: int) -> int;

    /// Whether the source is in a state `at` may be called in.
    spec fn inv(&self) -> bool;

    /// The control value at time `t`, in ppm.
    fn at(&self, t: u64) -> (m: i64)
        requires
            self.inv(),
        ensures
            m == self.spec_at(t as int),
            MOD_MIN_PPM <= m <= MOD_MAX_PPM,
    ;
}

/// A modulation source holding one control value for all times.
/// With a value of zero it is the identity modulation: a frequency
/// pass driven by it degenerates to plain phase accumulation.
pub struct ConstModulation {
    value_ppm: i64,
}

impl ConstModulation {
    /// The stored control value, in ppm.
    pub closed spec fn spec_value(&self) -> int {
        self.value_ppm as int
    }

    /// Builds a constant source; the value is clamped into the range
    /// a modulation source may produce.
    pub fn new(value_ppm: i64) -> (r: ConstModulation)
        ensures
            r.inv(),
            r.spec_value() == if value_ppm < MOD_MIN_PPM {
                MOD_MIN_PPM as int
            } else if value_ppm > MOD_MAX_PPM {
                MOD_MAX_PPM as int
            } else {
                value_ppm as int
            },
            forall|t: int| r.spec_at(t) == r.spec_value(),
    {
        let v = if value_ppm < MOD_MIN_PPM {
            MOD_MIN_PPM
        } else if value_ppm > MOD_MAX_PPM {
            MOD_MAX_PPM
        } else {
            value_ppm
        };
        ConstModulation { value_ppm: v }
    }
}

impl Modulation for ConstModulation {
    closed spec fn spec_at(&self, t: int) -> int {
        self.value_ppm as int
    }

    closed spec fn inv(&self) -> bool {
        MOD_MIN_PPM <= self.value_ppm <= MOD_MAX_PPM
    }

    fn at(&self, t: u64) -> (m: i64) {
        self.value_ppm
    }
}

} // verus!
