//! The mixer: sums the channels' buffers sample by sample into one
//! output buffer, weighting each channel by its volume and gain,
//! scaling by the master volume, and clamping into 16-bit range.
//!
//! All channels must hold buffers of one length; mixing a mismatched
//! set is rejected before any work. An empty channel set mixes to an
//! empty buffer.

use vstd::prelude::*;

use crate::SynthError;
use crate::channel::Channel;
use crate::num::clamp_i16;
use crate::num::clamp_sample;
use crate::num::rdiv;
use crate::num::rdiv_i128;

verus! {

/// One channel's contribution to output sample `i`: its sample times
/// its volume and gain (each in ppm).
pub open spec fn channel_term(ch: Channel, i: int) -> int {
    ch.samples@[i] * ch.volume_ppm * ch.gain_ppm
}

/// Sum of the first `k` channels' contributions to output sample `i`.
pub open spec fn weighted_sum(chs: Seq<Channel>, i: int, k: int) -> int
    decreases k,
{
    if k <= 0 {
        0
    } else {
        weighted_sum(chs, i, k - 1) + channel_term(chs[k - 1], i)
    }
}

/// Output sample `i` of a mix: the channels' weighted sum, scaled by
/// the master volume (ppm), rounded half away from zero out of the
/// three ppm weightings, and clamped into 16-bit range.
pub open spec fn mixed_sample(chs: Seq<Channel>, master_ppm: int, i: int) -> i16 {
    clamp_i16(rdiv(weighted_sum(chs, i, chs.len() as int) * master_ppm, 1_000_000_000_000_000_000))
}

/// All channels hold buffers of one length.
pub open spec fn equal_lengths(chs: Seq<Channel>) -> bool {
    forall|k: int| 0 <= k < chs.len() ==> #[trigger] chs[k].samples@.len() == chs[0].samples@.len()
}

/// A mixer: the channels to sum, the master volume, and the buffer the
/// most recent mix produced.
pub struct Mixer {
    pub channels: Vec<Channel>,
    pub master_volume_ppm: u32,
    pub mixed_samples: Vec<i16>,
}

impl Mixer {
    /// A fresh mixer: no channels, the master volume at one unit, an
    /// empty output buffer.
    pub fn new() -> (r: Mixer)
        ensures
            r.channels@ == Seq::<Channel>::empty(),
            r.master_volume_ppm == 1_000_000,
            r.mixed_samples@ == Seq::<i16>::empty(),
    {
        Mixer { channels: Vec::new(), master_volume_ppm: 1_000_000, mixed_samples: Vec::new() }
    }

    /// Adds a channel to the set being mixed.
    pub fn add_channel(&mut self, channel: Channel)
        ensures
            final(self).channels@ == old(self).channels@.push(channel),
            final(self).master_volume_ppm == old(self).master_volume_ppm,
            final(self).mixed_samples@ == old(self).mixed_samples@,
    {
        self.channels.push(channel);
    }

    /// Sets the master volume, in ppm.
    pub fn set_master_volume(&mut self, volume_ppm: u32)
        ensures
            final(self).master_volume_ppm == volume_ppm,
            final(self).channels@ == old(self).channels@,
            final(self).mixed_samples@ == old(self).mixed_samples@,
    {
        self.master_volume_ppm = volume_ppm;
    }

    /// Mixes the channels into the output buffer. With no channels the
    /// output is empty; with channels of mismatched buffer lengths the
    /// mix is rejected and the previous output is kept; otherwise every
    /// output sample is the weighted, scaled, clamped sum.
    pub fn mix(&mut self) -> (r: Result<(), SynthError>)
        requires
            old(self).channels@.len() <= 16384,
        ensures
            final(self).channels@ == old(self).channels@,
            final(self).master_volume_ppm == old(self).master_volume_ppm,
            ({
                let chs = old(self).channels@;
                let master = old(self).master_volume_ppm as int;
                if chs.len() == 0 {
                    &&& r is Ok
                    &&& final(self).mixed_samples@ == Seq::<i16>::empty()
                } else if equal_lengths(chs) {
                    &&& r is Ok
                    &&& final(self).mixed_samples@.len() == chs[0].samples@.len()
                    &&& forall|i: int|
                        0 <= i < chs[0].samples@.len() ==> final(self).mixed_samples@[i]
                            == mixed_sample(chs, master, i)
                } else {
                    &&& r is Err
                    &&& r->Err_0 == SynthError::InvalidParameter
                    &&& final(self).mixed_samples@ == old(self).mixed_samples@
                }
            }),
    {
        let ghost chs = self.channels@;
        let n_ch = self.channels.len();
        if n_ch == 0 {
            self.mixed_samples = Vec::new();
            return Ok(());
        }
        let mix_len = self.channels[0].samples.len();
        let mut k: usize = 1;
        while k < n_ch
            invariant
                self.channels@ == chs,
                chs == old(self).channels@,
                self.master_volume_ppm == old(self).master_volume_ppm,
                self.mixed_samples@ == old(self).mixed_samples@,
                n_ch == chs.len(),
                n_ch >= 1,
                mix_len == chs[0].samples@.len(),
                1 <= k <= n_ch,
                forall|j: int| 0 <= j < k ==> #[trigger] chs[j].samples@.len() == mix_len,
            decreases n_ch - k,
        {
            if self.channels[k].samples.len() != mix_len {
                return Err(SynthError::InvalidParameter);
            }
            k = k + 1;
        }
        let master = self.master_volume_ppm;
        let mut out: Vec<i16> = Vec::new();
        let mut i: usize = 0;
        while i < mix_len
            invariant
                self.channels@ == chs,
                chs == old(self).channels@,
                self.master_volume_ppm == old(self).master_volume_ppm,
                n_ch == chs.len(),
                1 <= n_ch <= 16384,
                master == self.master_volume_ppm,
                mix_len == chs[0].samples@.len(),
                equal_lengths(chs),
                i <= mix_len,
                out.len() == i,
                forall|j: int|
                    0 <= j < i ==> out@[j] == mixed_sample(chs, master as int, j),
            decreases mix_len - i,
        {
            let mut sum: i128 = 0;
            let mut c: usize = 0;
            while c < n_ch
                invariant
                    self.channels@ == chs,
                    n_ch == chs.len(),
                    n_ch <= 16384,
                    mix_len == chs[0].samples@.len(),
                    equal_lengths(chs),
                    i < mix_len,
                    c <= n_ch,
                    sum == weighted_sum(chs, i as int, c as int),
                    -c * 700_000_000_000_000_000_000_000 <= sum <= c
                        * 700_000_000_000_000_000_000_000,
                decreases n_ch - c,
            {
                let ch = &self.channels[c];
                let x: i16 = ch.samples[i];
                proof {
                    assert(-700_000_000_000_000_000_000_000int <= (x as int) * (ch.volume_ppm as int)
                        * (ch.gain_ppm as int) <= 700_000_000_000_000_000_000_000int
                        && -200_000_000_000_000int <= (x as int) * (ch.volume_ppm as int)
                        <= 200_000_000_000_000int) by (nonlinear_arith)
                        requires
                            -32768 <= x <= 32767,
                            0 <= ch.volume_ppm <= 4_294_967_295,
                            0 <= ch.gain_ppm <= 4_294_967_295,
                    ;
                }
                let term: i128 = (x as i128) * (ch.volume_ppm as i128) * (ch.gain_ppm as i128);
                sum = sum + term;
                c = c + 1;
            }
            proof {
                assert(-60_000_000_000_000_000_000_000_000_000_000_000_000int <= sum * (master as int)
                    <= 60_000_000_000_000_000_000_000_000_000_000_000_000int) by (nonlinear_arith)
                    requires
                        -12_000_000_000_000_000_000_000_000_000int <= sum
                            <= 12_000_000_000_000_000_000_000_000_000int,
                        0 <= master <= 4_294_967_295,
                ;
            }
            let total: i128 = sum * (master as i128);
            let q: i128 = rdiv_i128(total, 1_000_000_000_000_000_000);
            out.push(clamp_sample(q));
            i = i + 1;
        }
        self.mixed_samples = out;
        Ok(())
    }
}

/// A mix of one channel at a volume, gain and master volume of one
/// unit reproduces that channel's buffer exactly: every weighting is
/// the identity and no sample needs clamping.
pub proof fn lemma_mix_single_identity(ch: Channel, i: int)
    requires
        ch.volume_ppm == 1_000_000,
        ch.gain_ppm == 1_000_000,
        0 <= i < ch.samples@.len(),
    ensures
        mixed_sample(seq![ch], 1_000_000, i) == ch.samples@[i],
{
    let chs = seq![ch];
    let x = ch.samples@[i] as int;
    let v = ch.volume_ppm as int;
    let g = ch.gain_ppm as int;
    assert(x * v * g == x * 1_000_000 * 1_000_000) by (nonlinear_arith)
        requires
            v == 1_000_000,
            g == 1_000_000,
    ;
    assert(chs[0] == ch);
    assert(weighted_sum(chs, i, 0) == 0);
    assert(weighted_sum(chs, i, 1) == channel_term(ch, i));
    assert(weighted_sum(chs, i, 1) == x * 1_000_000 * 1_000_000);
    crate::num::lemma_rdiv_exact(x, 1_000_000_000_000_000_000int);
}

} // verus!
