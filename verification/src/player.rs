//! The player and the three states of a run.

use crate::geometry::{can_step, increment_loc, origin, step, Direction, Location, Point};
use vstd::prelude::*;

verus! {

/// How far above a platform's place the player stands on it.
pub const PLAYER_OFFSET: i64 = 40;

/// The state of a run: waiting for a move, resolving a committed move, or
/// falling to the ground.
#[derive(Clone, Copy, Debug, PartialEq, Eq, Hash, Structural)]
pub enum PlayerAction {
    Rest,
    Jump,
    Fall,
}

impl Default for PlayerAction {
    fn default() -> (action: PlayerAction)
        ensures
            action == PlayerAction::Rest,
    {
        PlayerAction::Rest
    }
}

/// What a player holds.
pub struct PlayerModel {
    /// Where the player is.
    pub location: Point,
    /// The direction committed for the hop being resolved.
    pub direction: Direction,
    /// The side the player last hopped to.
    pub facing: Direction,
    /// Whether the player has not started to fall.
    pub alive: bool,
}

/// The player.
#[derive(Clone, Copy, Debug, PartialEq, Eq, Structural)]
pub struct Player {
    pub location: Location,
    pub direction: Direction,
    pub facing: Direction,
    pub alive: bool,
}

impl View for Player {
    type V = PlayerModel;

    open spec fn view(&self) -> PlayerModel {
        PlayerModel {
            location: self.location@,
            direction: self.direction,
            facing: self.facing,
            alive: self.alive,
        }
    }
}

impl PlayerModel {
    /// A player who has not moved yet: at the run's origin, turned left,
    /// alive.
    pub open spec fn fresh() -> PlayerModel {
        PlayerModel {
            location: origin(),
            direction: Direction::Left,
            facing: Direction::Left,
            alive: true,
        }
    }

    /// The player one hop further in the committed direction.
    pub open spec fn incremented(self) -> PlayerModel {
        PlayerModel { location: step(self.location, self.direction), ..self }
    }
}

impl Default for Player {
    fn default() -> (player: Player)
        ensures
            player@ == PlayerModel::fresh(),
    {
        Player {
            location: Location::default(),
            direction: Direction::Left,
            facing: Direction::Left,
            alive: true,
        }
    }
}

impl Player {
    /// Moves the player one hop in the committed direction.
    pub fn increment(&mut self)
        requires
            can_step(old(self)@.location),
        ensures
            final(self)@ == old(self)@.incremented(),
    {
        let dir = self.direction;
        increment_loc(&mut self.location, &dir);
    }
}

} // verus!
