//! A mixer channel: one sample buffer with its static volume and gain
//! knobs and a tone filter, applied to the buffer before mixing.

use vstd::prelude::*;

use crate::filter::Filter;
use crate::filter::clamp_signed_unit;
use crate::filter::filtered;
use crate::filter::mod_filter_out;
use crate::modulation::Modulation;

verus! {

/// A channel owns one buffer; volume and gain (ppm) multiply directly
/// into the mixed signal with no implicit normalization. The filter
/// knob is kept in `[-1, 1]` units by every mutation.
pub struct Channel {
    pub samples: Vec<i16>,
    pub volume_ppm: u32,
    pub gain_ppm: u32,
    pub filter: Filter,
}

impl Channel {
    /// The filter knob, in ppm.
    pub open spec fn spec_filter_value(self) -> int {
        self.filter.spec_value()
    }

    /// The filter knob is within one unit either way.
    pub open spec fn wf(self) -> bool {
        self.filter.wf()
    }

    /// A fresh channel: an empty buffer, the given volume, a gain of
    /// one unit, and a bypassing filter.
    pub fn new(volume_ppm: u32) -> (r: Channel)
        ensures
            r.wf(),
            r.samples@ == Seq::<i16>::empty(),
            r.volume_ppm == volume_ppm,
            r.gain_ppm == 1_000_000,
            r.spec_filter_value() == 0,
    {
        Channel { samples: Vec::new(), volume_ppm, gain_ppm: 1_000_000, filter: Filter::new() }
    }

    /// Replaces the buffer wholesale.
    pub fn set_samples(&mut self, new_samples: Vec<i16>)
        ensures
            final(self).samples@ == new_samples@,
            final(self).volume_ppm == old(self).volume_ppm,
            final(self).gain_ppm == old(self).gain_ppm,
            final(self).filter == old(self).filter,
    {
        self.samples = new_samples;
    }

    /// Empties the buffer.
    pub fn clear_samples(&mut self)
        ensures
            final(self).samples@ == Seq::<i16>::empty(),
            final(self).volume_ppm == old(self).volume_ppm,
            final(self).gain_ppm == old(self).gain_ppm,
            final(self).filter == old(self).filter,
    {
        self.samples.clear();
    }

    /// Sets the filter knob, clamped into `[-1, 1]` units.
    pub fn set_filter_value(&mut self, value_ppm: i64)
        ensures
            final(self).wf(),
            final(self).spec_filter_value() == clamp_signed_unit(value_ppm as int),
            final(self).samples@ == old(self).samples@,
            final(self).volume_ppm == old(self).volume_ppm,
            final(self).gain_ppm == old(self).gain_ppm,
    {
        self.filter.set_value(value_ppm);
    }

    /// Applies the channel's filter to its buffer in place.
    pub fn filter(&mut self)
        requires
            old(self).wf(),
        ensures
            final(self).samples@ == filtered(old(self).spec_filter_value(), old(self).samples@),
            final(self).volume_ppm == old(self).volume_ppm,
            final(self).gain_ppm == old(self).gain_ppm,
            final(self).filter == old(self).filter,
            final(self).wf(),
    {
        let f = self.filter;
        f.set(&mut self.samples);
    }

    /// Applies the channel's filter to its buffer in place, with the
    /// knob modulated per sample over the buffer position.
    pub fn modulate_filter<M: Modulation>(&mut self, modulation: &M)
        requires
            old(self).wf(),
            modulation.inv(),
        ensures
            final(self).samples@.len() == old(self).samples@.len(),
            forall|i: int|
                0 <= i < old(self).samples@.len() ==> final(self).samples@[i] == mod_filter_out(
                    modulation,
                    old(self).spec_filter_value(),
                    old(self).samples@,
                    i,
                ),
            final(self).volume_ppm == old(self).volume_ppm,
            final(self).gain_ppm == old(self).gain_ppm,
            final(self).filter == old(self).filter,
            final(self).wf(),
    {
        let f = self.filter;
        f.modulate(&mut self.samples, modulation);
    }
}

/// Anything with a filter and a sample buffer the filter can run over.
pub trait Filterable {
    /// The filter knob, in ppm.
    spec fn filterable_value(&self) -> int;

    /// The sample buffer.
    spec fn filterable_samples(&self) -> Seq<i16>;

    /// The filter knob is in a usable state.
    spec fn filterable_wf(&self) -> bool;

    /// Applies the filter to the buffer in place.
    fn apply_filter(&mut self)
        requires
            old(self).filterable_wf(),
        ensures
            final(self).filterable_samples() == filtered(
                old(self).filterable_value(),
                old(self).filterable_samples(),
            ),
            final(self).filterable_wf(),
            final(self).filterable_value() == old(self).filterable_value(),
    ;
}

impl Filterable for Channel {
    open spec fn filterable_value(&self) -> int {
        self.spec_filter_value()
    }

    open spec fn filterable_samples(&self) -> Seq<i16> {
        self.samples@
    }

    open spec fn filterable_wf(&self) -> bool {
        self.wf()
    }

    fn apply_filter(&mut self) {
        self.filter();
    }
}

} // verus!
