//! Tempo in beats per minute, in thousandths of a beat.

use vstd::prelude::*;

verus! {

/// A tempo knob: beats per minute, stored in thousandths.
#[derive(Clone, Copy, Debug, PartialEq, Eq, Structural)]
pub struct BPM {
    pub bpm_milli: i64,
}

impl BPM {
    /// A tempo of the given thousandths of a beat per minute.
    pub fn new(bpm_milli: i64) -> (r: BPM)
        ensures
            r.bpm_milli == bpm_milli,
    {
        BPM { bpm_milli }
    }

    /// Sets the tempo.
    pub fn set(&mut self, bpm_milli: i64)
        ensures
            final(self).bpm_milli == bpm_milli,
    {
        self.bpm_milli = bpm_milli;
    }

    /// Sets the tempo.
    pub fn set_bpm(&mut self, bpm_milli: i64)
        ensures
            final(self).bpm_milli == bpm_milli,
    {
        self.bpm_milli = bpm_milli;
    }

    /// Beats per second, in thousandths (rounded down).
    pub fn beats_per_second(&self) -> (r: i64)
        requires
            self.bpm_milli >= 0,
        ensures
            r == self.bpm_milli / 60,
    {
        self.bpm_milli / 60
    }

    /// Length of one beat, in microseconds (rounded down).
    pub fn seconds_per_beat(&self) -> (r: u64)
        requires
            self.bpm_milli > 0,
        ensures
            r == 60_000_000_000i64 / self.bpm_milli,
    {
        (60_000_000_000i64 / self.bpm_milli) as u64
    }
}

impl Default for BPM {
    /// 120 beats per minute.
    fn default() -> (r: BPM)
        ensures
            r.bpm_milli == 120_000,
    {
        BPM { bpm_milli: 120_000 }
    }
}

} // verus!
