//! Time signatures: the named meters and their beat counts and note
//! values.

use vstd::prelude::*;

verus! {

/// One meter spelled out: its name, its written signature, and its
/// beat count and note value.
pub struct TimeSignature {
    pub name: &'static str,
    pub signature: &'static str,
    pub beats: u8,
    pub note: u8,
}

/// The named meters.
#[derive(Clone, Copy, Debug, PartialEq, Eq, Structural)]
pub enum TimeSignatures {
    ShuffleTime,
    CommonTime,
    CutTime,
    TwoTwo,
    TwoFour,
    ThreeFour,
    FourFour,
}

impl TimeSignatures {
    /// Beats per bar of the meter.
    pub open spec fn spec_beats(self) -> u8 {
        match self {
            TimeSignatures::ShuffleTime | TimeSignatures::ThreeFour => 3u8,
            TimeSignatures::CommonTime | TimeSignatures::FourFour => 4u8,
            TimeSignatures::CutTime | TimeSignatures::TwoTwo | TimeSignatures::TwoFour => 2u8,
        }
    }

    /// Note value carrying one beat of the meter.
    pub open spec fn spec_note(self) -> u8 {
        match self {
            TimeSignatures::ShuffleTime => 8u8,
            _ => 4u8,
        }
    }

    /// Beats per bar.
    pub fn beats(&self) -> (r: u8)
        ensures
            r == self.spec_beats(),
    {
        match self {
            TimeSignatures::ShuffleTime | TimeSignatures::ThreeFour => 3,
            TimeSignatures::CommonTime | TimeSignatures::FourFour => 4,
            TimeSignatures::CutTime | TimeSignatures::TwoTwo | TimeSignatures::TwoFour => 2,
        }
    }

    /// Note value carrying one beat.
    pub fn note(&self) -> (r: u8)
        ensures
            r == self.spec_note(),
    {
        match self {
            TimeSignatures::ShuffleTime => 8,
            TimeSignatures::CommonTime | TimeSignatures::CutTime | TimeSignatures::TwoTwo => 4,
            TimeSignatures::TwoFour | TimeSignatures::ThreeFour | TimeSignatures::FourFour => 4,
        }
    }

    /// The note value's name.
    pub fn note_name(&self) -> (r: &'static str)
        ensures
            self is ShuffleTime ==> r@ == "8th"@,
            !(self is ShuffleTime) ==> r@ == "4th"@,
    {
        match self {
            TimeSignatures::ShuffleTime => "8th",
            TimeSignatures::CommonTime | TimeSignatures::CutTime | TimeSignatures::TwoTwo => "4th",
            TimeSignatures::TwoFour | TimeSignatures::ThreeFour | TimeSignatures::FourFour => "4th",
        }
    }

    /// The meter's name.
    pub fn name(&self) -> (r: &'static str)
        ensures
            self is ShuffleTime ==> r@ == "Shuffle Time"@,
            self is CommonTime ==> r@ == "Common Time"@,
            self is CutTime ==> r@ == "Cut Time"@,
            self is TwoTwo ==> r@ == "Two-Two"@,
            self is TwoFour ==> r@ == "Two-Four"@,
            self is ThreeFour ==> r@ == "Three-Four"@,
            self is FourFour ==> r@ == "Four-Four"@,
    {
        match self {
            TimeSignatures::ShuffleTime => "Shuffle Time",
            TimeSignatures::CommonTime => "Common Time",
            TimeSignatures::CutTime => "Cut Time",
            TimeSignatures::TwoTwo => "Two-Two",
            TimeSignatures::TwoFour => "Two-Four",
            TimeSignatures::ThreeFour => "Three-Four",
            TimeSignatures::FourFour => "Four-Four",
        }
    }
}

impl Default for TimeSignatures {
    /// Common time is the default meter.
    fn default() -> (r: TimeSignatures)
        ensures
            r == TimeSignatures::CommonTime,
    {
        TimeSignatures::CommonTime
    }
}

} // verus!
