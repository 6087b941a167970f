//! Places on the playfield and the two ways a hop can go.

use vstd::prelude::*;

verus! {

/// Horizontal coordinate at which a run starts.
pub const START_X: i64 = 0;

/// Vertical coordinate at which a run starts.
pub const START_Y: i64 = -200;

/// Horizontal distance between neighbouring platforms.
pub const X_INC: i64 = 70;

/// Vertical rise from one platform to the next.
pub const Y_INC: i64 = 40;

/// Rightmost horizontal coordinate a platform may have.
pub const RIGHT_BOUND: i64 = 350;

/// Leftmost horizontal coordinate a platform may have.
pub const LEFT_BOUND: i64 = -350;

/// The side a hop goes to.
#[derive(Clone, Copy, Debug, PartialEq, Eq, Structural)]
pub enum Direction {
    Left,
    Right,
}

impl Default for Direction {
    fn default() -> (d: Direction)
        ensures
            d == Direction::Left,
    {
        Direction::Left
    }
}

impl Direction {
    /// The direction that a pair of key presses asks for: right wins over
    /// left, and no press asks for nothing.
    pub open spec fn of_keys(left: bool, right: bool) -> Option<Direction> {
        if right {
            Some(Direction::Right)
        } else if left {
            Some(Direction::Left)
        } else {
            None
        }
    }

    /// Reads a pair of key presses as a direction.
    pub fn from_keys(left: bool, right: bool) -> (d: Option<Direction>)
        ensures
            d == Direction::of_keys(left, right),
    {
        if right {
            Some(Direction::Right)
        } else if left {
            Some(Direction::Left)
        } else {
            None
        }
    }

    /// The direction that a coin toss stands for: heads is right.
    pub fn from_coin(heads: bool) -> (d: Direction)
        ensures
            heads ==> d == Direction::Right,
            !heads ==> d == Direction::Left,
    {
        if heads {
            Direction::Right
        } else {
            Direction::Left
        }
    }

    /// The other direction.
    pub open spec fn flipped(self) -> Direction {
        match self {
            Direction::Left => Direction::Right,
            Direction::Right => Direction::Left,
        }
    }

    /// Turns around.
    pub fn opposite(self) -> (d: Direction)
        ensures
            d == self.flipped(),
    {
        match self {
            Direction::Left => Direction::Right,
            Direction::Right => Direction::Left,
        }
    }
}

/// A place on the playfield, as a pair of mathematical integers.
pub struct Point {
    pub x: int,
    pub y: int,
}

/// A place on the playfield.
#[derive(Clone, Copy, Debug, PartialEq, Eq, Structural)]
pub struct Location {
    pub x: i64,
    pub y: i64,
}

impl View for Location {
    type V = Point;

    open spec fn view(&self) -> Point {
        Point { x: self.x as int, y: self.y as int }
    }
}

impl Default for Location {
    fn default() -> (loc: Location)
        ensures
            loc@ == origin(),
    {
        Location { x: START_X, y: START_Y }
    }
}

/// Where every run starts.
pub open spec fn origin() -> Point {
    Point { x: START_X as int, y: START_Y as int }
}

/// The horizontal change of one hop.
pub open spec fn dx(d: Direction) -> int {
    match d {
        Direction::Left => -X_INC,
        Direction::Right => X_INC as int,
    }
}

/// The place one hop away from `p`: sideways by `X_INC`, up by `Y_INC`.
pub open spec fn step(p: Point, d: Direction) -> Point {
    Point { x: p.x + dx(d), y: p.y + Y_INC }
}

/// Whether `x` lies on the playfield.
pub open spec fn in_bounds(x: int) -> bool {
    LEFT_BOUND <= x <= RIGHT_BOUND
}

/// Whether a hop from `p`, to either side, stays within the machine's
/// integers.
pub open spec fn can_step(p: Point) -> bool {
    &&& i64::MIN <= p.x - X_INC
    &&& p.x + X_INC <= i64::MAX
    &&& p.y + Y_INC <= i64::MAX
}

/// Moves `loc` one hop in direction `dir`.
pub fn increment_loc(loc: &mut Location, dir: &Direction)
    requires
        can_step(old(loc)@),
    ensures
        final(loc)@ == step(old(loc)@, *dir),
{
    match dir {
        Direction::Left => {
            loc.x = loc.x - X_INC;
        },
        Direction::Right => {
            loc.x = loc.x + X_INC;
        },
    }
    loc.y = loc.y + Y_INC;
}

} // verus!
