//! Bookkeeping of the layout driver.
//!
//! The driver reports every accepted particle configuration to an external
//! rendering sink, tagged with a monotonically increasing frame index, and
//! stops the solver as soon as two consecutive observed energy values are
//! exactly equal as floating-point numbers. Both pieces of state live
//! here: the frame counter and the previously observed energy, the latter
//! kept as the raw bit pattern of the `f64` the front end observed, with
//! equality decided by [`crate::fp::f64_bits_eq`].

use vstd::prelude::*;
use crate::fp::f64_bits_eq;
use crate::fp::bits_eq;

verus! {

/// Whether an energy observation stops the run, given the previously
/// observed energy (if any): stop exactly when the two encoded doubles
/// compare equal. Before any observation nothing can match, and a NaN
/// observation never matches — not even another NaN.
pub open spec fn stops(prev: Option<u64>, fx_bits: u64) -> bool {
    match prev {
        Option::Some(p) => f64_bits_eq(p, fx_bits),
        Option::None => false,
    }
}

pub struct DriverState {
    frames: usize,
    prev_energy: Option<u64>,
}

impl DriverState {
    /// Number of frames handed to the rendering sink so far.
    pub closed spec fn frames(&self) -> int {
        self.frames as int
    }

    /// Bit pattern of the last energy value that was observed and logged.
    pub closed spec fn prev_energy(&self) -> Option<u64> {
        self.prev_energy
    }

    /// A fresh driver: no frames emitted, no energy observed.
    pub fn new() -> (d: DriverState)
        ensures
            d.frames() == 0,
            d.prev_energy() == Option::<u64>::None,
    {
        DriverState { frames: 0, prev_energy: Option::None }
    }

    /// Number of frames handed to the rendering sink so far.
    pub fn frames_emitted(&self) -> (n: usize)
        ensures
            n == self.frames(),
    {
        self.frames
    }

    /// Hand one configuration to the rendering sink: returns the frame
    /// index to tag it with and advances the counter by one.
    pub fn emit(&mut self) -> (i: usize)
        requires
            old(self).frames() < usize::MAX,
        ensures
            i == old(self).frames(),
            final(self).frames() == old(self).frames() + 1,
            final(self).prev_energy() == old(self).prev_energy(),
    {
        let i = self.frames;
        self.frames = self.frames + 1;
        i
    }

    /// Judge one observed energy value, given as the bit pattern of the
    /// observed `f64`. The run stops exactly when the value equals the
    /// previously observed one; otherwise the value is remembered (and the
    /// front end logs it) and the run goes on.
    pub fn observe(&mut self, fx_bits: u64) -> (stop: bool)
        ensures
            stop == stops(old(self).prev_energy(), fx_bits),
            final(self).frames() == old(self).frames(),
            stop ==> final(self).prev_energy() == old(self).prev_energy(),
            !stop ==> final(self).prev_energy() == Option::Some(fx_bits),
    {
        let stop = match self.prev_energy {
            Option::Some(p) => bits_eq(p, fx_bits),
            Option::None => false,
        };
        if !stop {
            self.prev_energy = Option::Some(fx_bits);
        }
        stop
    }
}

} // verus!
