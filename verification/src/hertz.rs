//! Frequency knobs in hertz and kilohertz, stored in thousandths of
//! their unit (a `Hz` holds millihertz, a `KHz` thousandths of a
//! kilohertz). Arguments carry the same scale as the receiver's unit.
//!
//! Arithmetic acts on the real frequency values: where a product or
//! quotient leaves the milli grid, the result is the exact real value
//! truncated onto it. Operations that divide demand non-negative
//! operands, so that the truncation is well defined one way.

use vstd::prelude::*;

verus! {

/// A frequency in hertz, stored in millihertz.
#[derive(Clone, Copy, Debug, PartialEq, Eq, Structural)]
pub struct Hz {
    pub hz_milli: i64,
}

/// A frequency in kilohertz, stored in thousandths of a kilohertz.
#[derive(Clone, Copy, Debug, PartialEq, Eq, Structural)]
pub struct KHz {
    pub khz_milli: i64,
}

impl Hz {
    /// A frequency of the given millihertz.
    pub fn new(hz_milli: i64) -> (r: Hz)
        ensures
            r.hz_milli == hz_milli,
    {
        Hz { hz_milli }
    }

    /// Sets the frequency, in millihertz.
    pub fn set(&mut self, hz_milli: i64)
        ensures
            final(self).hz_milli == hz_milli,
    {
        self.hz_milli = hz_milli;
    }

    /// The same frequency in kilohertz (truncated onto its grid).
    pub fn to_khz(&self) -> (r: KHz)
        requires
            self.hz_milli >= 0,
        ensures
            r.khz_milli == self.hz_milli / 1000,
    {
        KHz { khz_milli: self.hz_milli / 1000 }
    }

    /// Adds a frequency in millihertz.
    pub fn add(&mut self, hz_milli: i64)
        requires
            i64::MIN <= old(self).hz_milli + hz_milli <= i64::MAX,
        ensures
            final(self).hz_milli == old(self).hz_milli + hz_milli,
    {
        self.hz_milli = self.hz_milli + hz_milli;
    }

    /// Subtracts a frequency in millihertz.
    pub fn sub(&mut self, hz_milli: i64)
        requires
            i64::MIN <= old(self).hz_milli - hz_milli <= i64::MAX,
        ensures
            final(self).hz_milli == old(self).hz_milli - hz_milli,
    {
        self.hz_milli = self.hz_milli - hz_milli;
    }

    /// Multiplies by the number of hertz the argument holds.
    pub fn mul(&mut self, hz_milli: i64)
        requires
            old(self).hz_milli >= 0,
            hz_milli >= 0,
            old(self).hz_milli * (hz_milli as int) / 1000int <= i64::MAX,
        ensures
            final(self).hz_milli == old(self).hz_milli * (hz_milli as int) / 1000int,
    {
        let p: i128 = (self.hz_milli as i128) * (hz_milli as i128);
        proof {
            assert(0 <= (self.hz_milli as int) * (hz_milli as int)
                <= 0x40000000000000000000000000000000int) by (nonlinear_arith)
                requires
                    0 <= self.hz_milli <= 0x7fff_ffff_ffff_ffff,
                    0 <= hz_milli <= 0x7fff_ffff_ffff_ffff,
            ;
        }
        self.hz_milli = (p / 1000) as i64;
    }

    /// Divides by the number of hertz the argument holds.
    pub fn div(&mut self, hz_milli: i64)
        requires
            old(self).hz_milli >= 0,
            hz_milli > 0,
            old(self).hz_milli * 1000int / (hz_milli as int) <= i64::MAX,
        ensures
            final(self).hz_milli == old(self).hz_milli * 1000int / (hz_milli as int),
    {
        let p: i128 = (self.hz_milli as i128) * 1000;
        self.hz_milli = (p / (hz_milli as i128)) as i64;
    }

    /// Remainder by the number of hertz the argument holds.
    pub fn rem(&mut self, hz_milli: i64)
        requires
            old(self).hz_milli >= 0,
            hz_milli > 0,
        ensures
            final(self).hz_milli == old(self).hz_milli % hz_milli,
    {
        self.hz_milli = self.hz_milli % hz_milli;
    }

    /// Negates the frequency.
    pub fn neg(&mut self)
        requires
            old(self).hz_milli > i64::MIN,
        ensures
            final(self).hz_milli == -old(self).hz_milli,
    {
        self.hz_milli = -self.hz_milli;
    }

    /// Adds one hertz.
    pub fn inc(&mut self)
        requires
            old(self).hz_milli + 1000 <= i64::MAX,
        ensures
            final(self).hz_milli == old(self).hz_milli + 1000,
    {
        self.hz_milli = self.hz_milli + 1000;
    }

    /// Subtracts one hertz.
    pub fn dec(&mut self)
        requires
            i64::MIN <= old(self).hz_milli - 1000,
        ensures
            final(self).hz_milli == old(self).hz_milli - 1000,
    {
        self.hz_milli = self.hz_milli - 1000;
    }

    /// Adds a frequency given in thousandths of a kilohertz.
    pub fn add_khz(&mut self, khz_milli: i64)
        requires
            -9_000_000_000_000_000 <= khz_milli <= 9_000_000_000_000_000,
            i64::MIN <= old(self).hz_milli + khz_milli * 1000 <= i64::MAX,
        ensures
            final(self).hz_milli == old(self).hz_milli + khz_milli * 1000,
    {
        self.hz_milli = self.hz_milli + khz_milli * 1000;
    }

    /// Subtracts a frequency given in thousandths of a kilohertz.
    pub fn sub_khz(&mut self, khz_milli: i64)
        requires
            -9_000_000_000_000_000 <= khz_milli <= 9_000_000_000_000_000,
            i64::MIN <= old(self).hz_milli - khz_milli * 1000 <= i64::MAX,
        ensures
            final(self).hz_milli == old(self).hz_milli - khz_milli * 1000,
    {
        self.hz_milli = self.hz_milli - khz_milli * 1000;
    }

    /// Multiplies by a thousand times the number of kilohertz the
    /// argument holds; on the milli grid the factor is the argument's
    /// stored value itself.
    pub fn mul_khz(&mut self, khz_milli: i64)
        requires
            i64::MIN <= old(self).hz_milli * khz_milli <= i64::MAX,
        ensures
            final(self).hz_milli == old(self).hz_milli * khz_milli,
    {
        let p: i128 = (self.hz_milli as i128) * (khz_milli as i128);
        proof {
            assert(-0x40000000000000000000000000000000int <= (self.hz_milli as int) * (khz_milli as int)
                <= 0x40000000000000000000000000000000int) by (nonlinear_arith)
                requires
                    -0x8000000000000000 <= self.hz_milli <= 0x7fff_ffff_ffff_ffff,
                    -0x8000000000000000 <= khz_milli <= 0x7fff_ffff_ffff_ffff,
            ;
        }
        self.hz_milli = p as i64;
    }

    /// Divides by a thousand times the number of kilohertz the
    /// argument holds.
    pub fn div_khz(&mut self, khz_milli: i64)
        requires
            old(self).hz_milli >= 0,
            khz_milli > 0,
        ensures
            final(self).hz_milli == old(self).hz_milli / khz_milli,
    {
        self.hz_milli = self.hz_milli / khz_milli;
    }

    /// Remainder by a thousand times the number of kilohertz the
    /// argument holds.
    pub fn rem_khz(&mut self, khz_milli: i64)
        requires
            old(self).hz_milli >= 0,
            khz_milli > 0,
            khz_milli * 1000 <= i64::MAX,
        ensures
            final(self).hz_milli == (old(self).hz_milli as int) % ((khz_milli as int) * 1000),
    {
        self.hz_milli = self.hz_milli % (khz_milli * 1000);
    }

    /// Negates the frequency.
    pub fn neg_khz(&mut self)
        requires
            old(self).hz_milli > i64::MIN,
        ensures
            final(self).hz_milli == -old(self).hz_milli,
    {
        self.hz_milli = -self.hz_milli;
    }

    /// Adds one kilohertz.
    pub fn inc_khz(&mut self)
        requires
            old(self).hz_milli + 1_000_000 <= i64::MAX,
        ensures
            final(self).hz_milli == old(self).hz_milli + 1_000_000,
    {
        self.hz_milli = self.hz_milli + 1_000_000;
    }

    /// Subtracts one kilohertz.
    pub fn dec_khz(&mut self)
        requires
            i64::MIN <= old(self).hz_milli - 1_000_000,
        ensures
            final(self).hz_milli == old(self).hz_milli - 1_000_000,
    {
        self.hz_milli = self.hz_milli - 1_000_000;
    }

    /// Sets the frequency from thousandths of a kilohertz.
    pub fn set_khz(&mut self, khz_milli: i64)
        requires
            -9_000_000_000_000_000 <= khz_milli <= 9_000_000_000_000_000,
        ensures
            final(self).hz_milli == khz_milli * 1000,
    {
        self.hz_milli = khz_milli * 1000;
    }
}

impl Default for Hz {
    /// 432 hertz.
    fn default() -> (r: Hz)
        ensures
            r.hz_milli == 432_000,
    {
        Hz { hz_milli: 432_000 }
    }
}

impl KHz {
    /// A frequency of the given thousandths of a kilohertz.
    pub fn new(khz_milli: i64) -> (r: KHz)
        ensures
            r.khz_milli == khz_milli,
    {
        KHz { khz_milli }
    }

    /// Sets the frequency, in thousandths of a kilohertz.
    pub fn set(&mut self, khz_milli: i64)
        ensures
            final(self).khz_milli == khz_milli,
    {
        self.khz_milli = khz_milli;
    }

    /// The same frequency in hertz, on the millihertz grid.
    pub fn to_hz(&self) -> (r: Hz)
        requires
            -9_000_000_000_000_000 <= self.khz_milli <= 9_000_000_000_000_000,
        ensures
            r.hz_milli == self.khz_milli * 1000,
    {
        Hz { hz_milli: self.khz_milli * 1000 }
    }

    /// Sets the frequency from millihertz (truncated onto the grid).
    pub fn set_hz(&mut self, hz_milli: i64)
        requires
            hz_milli >= 0,
        ensures
            final(self).khz_milli == hz_milli / 1000,
    {
        self.khz_milli = hz_milli / 1000;
    }

    /// Adds a frequency in thousandths of a kilohertz.
    pub fn add(&mut self, khz_milli: i64)
        requires
            i64::MIN <= old(self).khz_milli + khz_milli <= i64::MAX,
        ensures
            final(self).khz_milli == old(self).khz_milli + khz_milli,
    {
        self.khz_milli = self.khz_milli + khz_milli;
    }

    /// Subtracts a frequency in thousandths of a kilohertz.
    pub fn sub(&mut self, khz_milli: i64)
        requires
            i64::MIN <= old(self).khz_milli - khz_milli <= i64::MAX,
        ensures
            final(self).khz_milli == old(self).khz_milli - khz_milli,
    {
        self.khz_milli = self.khz_milli - khz_milli;
    }

    /// Multiplies by the number of kilohertz the argument holds.
    pub fn mul(&mut self, khz_milli: i64)
        requires
            old(self).khz_milli >= 0,
            khz_milli >= 0,
            old(self).khz_milli * (khz_milli as int) / 1000int <= i64::MAX,
        ensures
            final(self).khz_milli == old(self).khz_milli * (khz_milli as int) / 1000int,
    {
        let p: i128 = (self.khz_milli as i128) * (khz_milli as i128);
        proof {
            assert(0 <= (self.khz_milli as int) * (khz_milli as int)
                <= 0x40000000000000000000000000000000int) by (nonlinear_arith)
                requires
                    0 <= self.khz_milli <= 0x7fff_ffff_ffff_ffff,
                    0 <= khz_milli <= 0x7fff_ffff_ffff_ffff,
            ;
        }
        self.khz_milli = (p / 1000) as i64;
    }

    /// Divides by the number of kilohertz the argument holds.
    pub fn div(&mut self, khz_milli: i64)
        requires
            old(self).khz_milli >= 0,
            khz_milli > 0,
            old(self).khz_milli * 1000int / (khz_milli as int) <= i64::MAX,
        ensures
            final(self).khz_milli == old(self).khz_milli * 1000int / (khz_milli as int),
    {
        let p: i128 = (self.khz_milli as i128) * 1000;
        self.khz_milli = (p / (khz_milli as i128)) as i64;
    }

    /// Remainder by the number of kilohertz the argument holds.
    pub fn rem(&mut self, khz_milli: i64)
        requires
            old(self).khz_milli >= 0,
            khz_milli > 0,
        ensures
            final(self).khz_milli == old(self).khz_milli % khz_milli,
    {
        self.khz_milli = self.khz_milli % khz_milli;
    }

    /// Negates the frequency.
    pub fn neg(&mut self)
        requires
            old(self).khz_milli > i64::MIN,
        ensures
            final(self).khz_milli == -old(self).khz_milli,
    {
        self.khz_milli = -self.khz_milli;
    }

    /// Adds one kilohertz.
    pub fn inc(&mut self)
        requires
            old(self).khz_milli + 1000 <= i64::MAX,
        ensures
            final(self).khz_milli == old(self).khz_milli + 1000,
    {
        self.khz_milli = self.khz_milli + 1000;
    }

    /// Subtracts one kilohertz.
    pub fn dec(&mut self)
        requires
            i64::MIN <= old(self).khz_milli - 1000,
        ensures
            final(self).khz_milli == old(self).khz_milli - 1000,
    {
        self.khz_milli = self.khz_milli - 1000;
    }

    /// Adds a frequency given in millihertz (truncated onto the grid).
    pub fn add_hz(&mut self, hz_milli: i64)
        requires
            hz_milli >= 0,
            old(self).khz_milli + hz_milli / 1000 <= i64::MAX,
        ensures
            final(self).khz_milli == old(self).khz_milli + hz_milli / 1000,
    {
        self.khz_milli = self.khz_milli + hz_milli / 1000;
    }

    /// Subtracts a frequency given in millihertz (truncated onto the
    /// grid).
    pub fn sub_hz(&mut self, hz_milli: i64)
        requires
            hz_milli >= 0,
            i64::MIN <= old(self).khz_milli - hz_milli / 1000,
        ensures
            final(self).khz_milli == old(self).khz_milli - hz_milli / 1000,
    {
        self.khz_milli = self.khz_milli - hz_milli / 1000;
    }

    /// Multiplies by a thousandth of the number of hertz the argument
    /// holds.
    pub fn mul_hz(&mut self, hz_milli: i64)
        requires
            old(self).khz_milli >= 0,
            hz_milli >= 0,
            old(self).khz_milli * (hz_milli as int) / 1_000_000int <= i64::MAX,
        ensures
            final(self).khz_milli == old(self).khz_milli * (hz_milli as int) / 1_000_000int,
    {
        let p: i128 = (self.khz_milli as i128) * (hz_milli as i128);
        proof {
            assert(0 <= (self.khz_milli as int) * (hz_milli as int)
                <= 0x40000000000000000000000000000000int) by (nonlinear_arith)
                requires
                    0 <= self.khz_milli <= 0x7fff_ffff_ffff_ffff,
                    0 <= hz_milli <= 0x7fff_ffff_ffff_ffff,
            ;
        }
        self.khz_milli = (p / 1_000_000) as i64;
    }

    /// Divides by a thousandth of the number of hertz the argument
    /// holds.
    pub fn div_hz(&mut self, hz_milli: i64)
        requires
            old(self).khz_milli >= 0,
            hz_milli > 0,
            old(self).khz_milli * 1_000_000int / (hz_milli as int) <= i64::MAX,
        ensures
            final(self).khz_milli == old(self).khz_milli * 1_000_000int / (hz_milli as int),
    {
        let p: i128 = (self.khz_milli as i128) * 1_000_000;
        self.khz_milli = (p / (hz_milli as i128)) as i64;
    }

    /// Remainder by a thousandth of the number of hertz the argument
    /// holds (the argument truncated onto the kilohertz grid).
    pub fn rem_hz(&mut self, hz_milli: i64)
        requires
            old(self).khz_milli >= 0,
            hz_milli >= 1000,
        ensures
            final(self).khz_milli == (old(self).khz_milli as int) % ((hz_milli as int) / 1000),
    {
        self.khz_milli = self.khz_milli % (hz_milli / 1000);
    }

    /// Negates the frequency.
    pub fn neg_hz(&mut self)
        requires
            old(self).khz_milli > i64::MIN,
        ensures
            final(self).khz_milli == -old(self).khz_milli,
    {
        self.khz_milli = -self.khz_milli;
    }

    /// Adds a thousandth of a kilohertz: one hertz.
    pub fn inc_hz(&mut self)
        requires
            old(self).khz_milli + 1 <= i64::MAX,
        ensures
            final(self).khz_milli == old(self).khz_milli + 1,
    {
        self.khz_milli = self.khz_milli + 1;
    }

    /// Subtracts a thousandth of a kilohertz: one hertz.
    pub fn dec_hz(&mut self)
        requires
            i64::MIN <= old(self).khz_milli - 1,
        ensures
            final(self).khz_milli == old(self).khz_milli - 1,
    {
        self.khz_milli = self.khz_milli - 1;
    }
}

impl Default for KHz {
    /// 0.432 kilohertz.
    fn default() -> (r: KHz)
        ensures
            r.khz_milli == 432,
    {
        KHz { khz_milli: 432 }
    }
}

} // verus!
