//! Tempo: a beats-per-minute knob paired with a time signature, and
//! the conversions between bars, beats and time.

use vstd::prelude::*;

use crate::bpm::BPM;
use crate::time_signature::TimeSignatures;

verus! {

/// A tempo: beats per minute and the meter.
pub struct Tempo {
    pub bpm: BPM,
    pub time_signature: TimeSignatures,
}

impl Tempo {
    /// A tempo from optional parts; a missing part takes its default
    /// (120 beats per minute, common time).
    pub fn new(bpm_milli: Option<i64>, time_signature: Option<TimeSignatures>) -> (r: Tempo)
        ensures
            r.bpm.bpm_milli == match bpm_milli {
                Some(b) => b,
                None => 120_000i64,
            },
            r.time_signature == match time_signature {
                Some(ts) => ts,
                None => TimeSignatures::CommonTime,
            },
    {
        let bpm = match bpm_milli {
            Some(b) => BPM::new(b),
            None => BPM::default(),
        };
        let ts = match time_signature {
            Some(ts) => ts,
            None => TimeSignatures::default(),
        };
        Tempo { bpm, time_signature: ts }
    }

    /// Sets the tempo, in thousandths of a beat per minute.
    pub fn set_bpm(&mut self, bpm_milli: i64)
        ensures
            final(self).bpm.bpm_milli == bpm_milli,
            final(self).time_signature == old(self).time_signature,
    {
        self.bpm.set(bpm_milli);
    }

    /// Sets the meter.
    pub fn set_time_signature(&mut self, time_signature: TimeSignatures)
        ensures
            final(self).time_signature == time_signature,
            final(self).bpm == old(self).bpm,
    {
        self.time_signature = time_signature;
    }

    /// The time span per beat at this tempo, summed over a span of
    /// `time_us` microseconds: `seconds / beats_per_second`, in
    /// thousandths (rounded down).
    pub fn beats_over_time(&self, time_us: u64) -> (r: u64)
        requires
            self.bpm.bpm_milli > 0,
            time_us * 60 / (self.bpm.bpm_milli as int) <= u64::MAX,
        ensures
            r == time_us * 60 / (self.bpm.bpm_milli as int),
    {
        let b: u128 = self.bpm.bpm_milli as u128;
        (((time_us as u128) * 60) / b) as u64
    }

    /// The time span of the given thousandths of a beat at this tempo,
    /// in microseconds (rounded down).
    pub fn beats_to_time(&self, beats_milli: u64) -> (r: u64)
        requires
            self.bpm.bpm_milli > 0,
            beats_milli * 60_000_000 / (self.bpm.bpm_milli as int) <= u64::MAX,
        ensures
            r == beats_milli * 60_000_000 / (self.bpm.bpm_milli as int),
    {
        let b: u128 = self.bpm.bpm_milli as u128;
        (((beats_milli as u128) * 60_000_000) / b) as u64
    }

    /// Beats in the given thousandths of a bar under the meter, in
    /// thousandths of a beat.
    pub fn bars_to_beats(&self, bars_milli: u64) -> (r: u64)
        requires
            bars_milli * self.time_signature.spec_beats() <= u64::MAX,
        ensures
            r == bars_milli * self.time_signature.spec_beats(),
    {
        bars_milli * (self.time_signature.beats() as u64)
    }

    /// The time span of the given thousandths of a bar at this tempo,
    /// in microseconds (rounded down).
    pub fn bars_to_time(&self, bars_milli: u64) -> (r: u64)
        requires
            self.bpm.bpm_milli > 0,
            bars_milli * self.time_signature.spec_beats() <= u64::MAX,
            bars_milli * self.time_signature.spec_beats() * 60_000_000 / (self.bpm.bpm_milli as int)
                <= u64::MAX,
        ensures
            r == bars_milli * self.time_signature.spec_beats() * 60_000_000 / (self.bpm.bpm_milli as int),
    {
        let beats = self.bars_to_beats(bars_milli);
        self.beats_to_time(beats)
    }
}

impl Default for Tempo {
    /// 120 beats per minute in common time.
    fn default() -> (r: Tempo)
        ensures
            r.bpm.bpm_milli == 120_000,
            r.time_signature == TimeSignatures::CommonTime,
    {
        Tempo { bpm: BPM::default(), time_signature: TimeSignatures::default() }
    }
}

} // verus!
