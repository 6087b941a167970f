//! The path generator: which way the next platform lies.

use crate::geometry::{in_bounds, step, Direction, Location, Point, LEFT_BOUND, RIGHT_BOUND, X_INC};
use vstd::prelude::*;

verus! {

/// Calls `rand::random::<bool>()`, a coin toss from the thread's generator.
/// Nothing is known of the outcome.
#[verifier::external_body]
fn random_bool() -> bool {
    rand::random::<bool>()
}

/// The direction that the playfield's edges force at `x`, if any: right
/// where a hop to the left would leave the field, left where a hop to the
/// right would.
pub open spec fn forced(x: int) -> Option<Direction> {
    if x - X_INC < LEFT_BOUND {
        Some(Direction::Right)
    } else if x + X_INC > RIGHT_BOUND {
        Some(Direction::Left)
    } else {
        None
    }
}

/// The direction of the next platform from `x`, for a generator that leans
/// towards `lean`: the forced one where the edges force one, else `lean`.
pub open spec fn next_dir(x: int, lean: Direction) -> Direction {
    match forced(x) {
        Some(d) => d,
        None => lean,
    }
}

/// Overrides `dir` where the playfield's edges force the other direction at
/// `loc`.
pub fn out_of_bounds(loc: &Location, dir: &mut Direction)
    ensures
        *final(dir) == next_dir(loc.x as int, *old(dir)),
{
    if loc.x > RIGHT_BOUND - X_INC {
        *dir = Direction::Left;
    }
    if loc.x < LEFT_BOUND + X_INC {
        *dir = Direction::Right;
    }
}

/// A direction drawn at random: a coin toss, heads for right.
pub fn gen_rand_dir() -> Direction {
    Direction::from_coin(random_bool())
}

/// The direction of the next platform from `current_x`: the forced one
/// where the edges force one, else a random one.
pub fn next_direction(current_x: i64) -> (d: Direction)
    ensures
        exists|lean: Direction| d == next_dir(current_x as int, lean),
        forced(current_x as int) is Some ==> Some(d) == forced(current_x as int),
{
    let lean = gen_rand_dir();
    let d = next_direction_leaning(current_x, lean);
    assert(d == next_dir(current_x as int, lean));
    d
}

/// The direction of the next platform from `current_x` when the draw came
/// out as `lean`.
pub fn next_direction_leaning(current_x: i64, lean: Direction) -> (d: Direction)
    ensures
        d == next_dir(current_x as int, lean),
{
    let mut d = lean;
    let here = Location { x: current_x, y: 0 };
    out_of_bounds(&here, &mut d);
    d
}

/// A platform generated from a place on the playfield lies on the playfield,
/// whichever way the generator leans.
pub proof fn lemma_next_step_in_bounds(p: Point, lean: Direction)
    requires
        in_bounds(p.x),
    ensures
        in_bounds(step(p, next_dir(p.x, lean)).x),
{
}

/// No place has a hop to the left and a hop to the right both leave the
/// field. The edges leave the choice free on the inner part of the field,
/// where the lean decides; elsewhere the forced direction does.
pub proof fn lemma_forced_or_free(x: int, lean: Direction)
    ensures
        !(x - X_INC < LEFT_BOUND && x + X_INC > RIGHT_BOUND),
        forced(x) is None <==> LEFT_BOUND + X_INC <= x <= RIGHT_BOUND - X_INC,
        forced(x) is None ==> next_dir(x, lean) == lean,
        forced(x) is Some ==> next_dir(x, lean) == forced(x)->Some_0,
{
}

} // verus!
