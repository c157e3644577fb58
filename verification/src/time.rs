use vstd::prelude::*;

use crate::scalar::Scalar;
use crate::scalar::mul_of;
use crate::scalar::one_text;
use crate::scalar::zero_text;

verus! {

// Simulated-time bookkeeping.  The host supplies real elapsed seconds each
// tick; the simulation advances by that span scaled by the current speed
// multiplier.

/// The speed multiplier applied to real elapsed time.
#[derive(Debug)]
pub struct TimeSpeed(pub Scalar);

impl TimeSpeed {
    /// Real-time speed.
    pub fn new() -> (r: TimeSpeed)
        ensures
            r.0@ == one_text(),
    {
        TimeSpeed(Scalar::one())
    }
}

/// The elapsed simulated seconds of the current tick, already scaled by the
/// speed multiplier.
#[derive(Debug)]
pub struct DeltaTime(Scalar);

impl DeltaTime {
    /// No time has passed yet.
    pub fn new() -> (r: DeltaTime)
        ensures
            r.seconds_view() == zero_text(),
    {
        DeltaTime(Scalar::zero())
    }

    /// The stored span as text.
    pub closed spec fn seconds_view(self) -> Seq<char> {
        self.0@
    }

    /// The elapsed simulated seconds of this tick.
    pub fn seconds(&self) -> (r: Scalar)
        ensures
            r@ == self.seconds_view(),
    {
        self.0.dup()
    }

    /// Records a new tick: the real elapsed seconds scaled by the speed
    /// multiplier.
    pub fn update(&mut self, real_elapsed_seconds: &Scalar, speed: &TimeSpeed)
        ensures
            final(self).seconds_view() == mul_of(real_elapsed_seconds@, speed.0@),
    {
        self.0 = real_elapsed_seconds.mul(&speed.0);
    }
}

} // verus!
