//! The fixed-timestep accumulator: the host's frame loop runs at a variable
//! wall-clock rate, and this accumulator turns the elapsed time it reports
//! into a whole number of fixed simulation ticks, carrying the remainder
//! over to the next frame.

use vstd::prelude::*;

use crate::fixed::Fx;
use crate::fixed::fx_add;

verus! {

/// The carried-over fraction of a tick.
#[derive(Clone, Copy, Debug, PartialEq, Eq, Structural)]
pub struct TickAccumulator {
    /// Time received but not yet simulated; always in `[0, dt)` after a
    /// call to `advance`.
    pub residual: Fx,
}

impl TickAccumulator {
    /// A fresh accumulator with nothing carried over.
    pub fn new() -> (t: TickAccumulator)
        ensures
            t.residual.raw == 0,
    {
        TickAccumulator { residual: Fx::zero() }
    }

    /// Account for `elapsed` more wall-clock time and return how many whole
    /// ticks of length `dt` to simulate, keeping the remainder.
    pub fn advance(&mut self, elapsed: Fx, dt: Fx) -> (n: u64)
        requires
            0 <= old(self).residual.raw,
            0 <= elapsed.raw,
            0 < dt.raw,
        ensures
            n == fx_add(old(self).residual.raw as int, elapsed.raw as int) / (dt.raw as int),
            final(self).residual.raw == fx_add(old(self).residual.raw as int, elapsed.raw as int)
                % (dt.raw as int),
            0 <= final(self).residual.raw < dt.raw,
    {
        let total = self.residual.add(elapsed);
        let t: u64 = total.raw as u64;
        let d: u64 = dt.raw as u64;
        let n: u64 = t / d;
        let rem: u64 = t % d;
        self.residual = Fx { raw: rem as i64 };
        n
    }
}

} // verus!
