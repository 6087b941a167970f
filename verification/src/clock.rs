//! Frame times in whole milliseconds.
//!
//! The run counts time in milliseconds; a frame lasts some number of
//! nanoseconds. The clock hands each frame its whole milliseconds and keeps
//! the rest for the next one, so that no time is lost over a run.

use vstd::prelude::*;

verus! {

/// Nanoseconds in a millisecond.
pub const NANOS_PER_MILLI: u64 = 1_000_000;

/// The whole milliseconds in `nanos` nanoseconds.
pub open spec fn whole_millis(nanos: nat) -> nat {
    nanos / (NANOS_PER_MILLI as nat)
}

/// What is left of `nanos` nanoseconds beside its whole milliseconds.
pub open spec fn left_over(nanos: nat) -> nat {
    nanos % (NANOS_PER_MILLI as nat)
}

/// The part of the frames seen so far that has not yet made up a whole
/// millisecond.
pub struct FrameClock {
    carry_nanos: u64,
}

impl View for FrameClock {
    type V = nat;

    /// The nanoseconds carried over to the next frame.
    closed spec fn view(&self) -> nat {
        self.carry_nanos as nat
    }
}

impl Default for FrameClock {
    fn default() -> (clock: FrameClock)
        ensures
            clock@ == 0,
    {
        FrameClock::new()
    }
}

impl FrameClock {
    /// A clock that carries nothing over.
    pub fn new() -> (clock: FrameClock)
        ensures
            clock@ == 0,
    {
        FrameClock { carry_nanos: 0 }
    }

    /// Takes in a frame of `delta_nanos` nanoseconds and gives the whole
    /// milliseconds that have come together; what is left is carried over.
    /// Should they not fit the result, the result is the largest there is
    /// and nothing is carried over.
    pub fn advance(&mut self, delta_nanos: u64) -> (ms: u32)
        ensures
            whole_millis(old(self)@ + delta_nanos as nat) <= u32::MAX ==> {
                &&& ms == whole_millis(old(self)@ + delta_nanos as nat)
                &&& final(self)@ == left_over(old(self)@ + delta_nanos as nat)
            },
            whole_millis(old(self)@ + delta_nanos as nat) > u32::MAX ==> {
                &&& ms == u32::MAX
                &&& final(self)@ == 0
            },
    {
        let total: u128 = self.carry_nanos as u128 + delta_nanos as u128;
        let whole: u128 = total / (NANOS_PER_MILLI as u128);
        if whole <= u32::MAX as u128 {
            self.carry_nanos = (total % (NANOS_PER_MILLI as u128)) as u64;
            whole as u32
        } else {
            self.carry_nanos = 0;
            u32::MAX
        }
    }
}

/// Over any two frames, the milliseconds handed out and the nanoseconds
/// still carried add up to the time taken in.
pub proof fn lemma_no_time_lost(carry: nat, first: nat, second: nat)
    ensures
        (whole_millis(carry + first) + whole_millis(left_over(carry + first) + second))
            * NANOS_PER_MILLI + left_over(left_over(carry + first) + second) == carry + first
            + second,
{
}

} // verus!
