//! The checkpoint: a place on the track that refills the countdown when the
//! player reaches it.

use crate::countdown::{Countdown, CHECK_POINT_TIME};
use crate::decimal::{decimal, push_decimal};
use crate::geometry::{origin, Location, Point};
use vstd::prelude::*;

verus! {

/// What a checkpoint holds: the time counted since it was last claimed, in
/// milliseconds, and its place.
pub struct CheckPointModel {
    pub elapsed_ms: nat,
    pub location: Point,
}

/// The checkpoint.
pub struct CheckPoint {
    pub timer: Countdown,
    pub location: Location,
}

impl View for CheckPoint {
    type V = CheckPointModel;

    open spec fn view(&self) -> CheckPointModel {
        CheckPointModel { elapsed_ms: self.timer.elapsed_ms(), location: self.location@ }
    }
}

/// The label of the time display.
pub open spec fn time_label() -> Seq<char> {
    "Time: "@
}

/// The whole seconds shown as left after `elapsed_ms` milliseconds: the
/// budget less the elapsed time rounded to the nearest second, halves
/// rounded up.
pub open spec fn seconds_shown(elapsed_ms: nat) -> int {
    CHECK_POINT_TIME / 1000 - (elapsed_ms + 500) / 1000
}

impl CheckPointModel {
    /// The checkpoint after `dt_ms` more milliseconds: the elapsed time
    /// grows and stops at the budget.
    pub open spec fn ticked(self, dt_ms: nat) -> CheckPointModel {
        CheckPointModel {
            elapsed_ms: if self.elapsed_ms + dt_ms >= CHECK_POINT_TIME {
                CHECK_POINT_TIME as nat
            } else {
                self.elapsed_ms + dt_ms
            },
            ..self
        }
    }

    /// Whether the countdown has run out.
    pub open spec fn expired(self) -> bool {
        self.elapsed_ms >= CHECK_POINT_TIME
    }
}

impl Default for CheckPoint {
    fn default() -> (cp: CheckPoint)
        ensures
            cp.wf(),
            cp@ == (CheckPointModel { elapsed_ms: 0, location: origin() }),
    {
        CheckPoint::new(Location::default())
    }
}

impl CheckPoint {
    /// The countdown is well formed.
    pub open spec fn wf(&self) -> bool {
        self.timer.wf()
    }

    /// A checkpoint at `location` with a full countdown.
    pub fn new(location: Location) -> (cp: CheckPoint)
        ensures
            cp.wf(),
            cp@ == (CheckPointModel { elapsed_ms: 0, location: location@ }),
    {
        CheckPoint { timer: Countdown::new(), location }
    }

    /// The text to display: the label, then the whole seconds left.
    pub fn to_string(&self) -> (s: String)
        requires
            self.wf(),
        ensures
            s@ == time_label() + decimal(seconds_shown(self@.elapsed_ms)),
    {
        let rounded = (self.timer.elapsed() + 500) / 1000;
        let left = CHECK_POINT_TIME / 1000 - rounded;
        let mut s = "Time: ".to_owned();
        push_decimal(&mut s, left as i64);
        s
    }
}

} // verus!
