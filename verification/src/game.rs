//! The run: the player, the track, the checkpoint and the two scores, and
//! the transitions of the rest, jump and fall cycle.

use crate::check_point::{seconds_shown, time_label, CheckPoint, CheckPointModel};
use crate::countdown::CHECK_POINT_TIME;
use crate::decimal::decimal;
use crate::geometry::{
    dx, in_bounds, origin, step, Direction, Location, Point, START_X, START_Y, Y_INC,
};
use crate::path::gen_rand_dir;
use crate::player::{Player, PlayerAction, PlayerModel, PLAYER_OFFSET};
use crate::score::{absorbed, high_score_label, score_label, Score, ScoreModel};
use crate::track::{
    lemma_advanced_wf, lemma_extended_wf, lemma_seeded_wf, EmptyTrackError, PlatformTrack,
    TrackModel,
};
use vstd::prelude::*;

verus! {

/// The number of platforms kept ahead of the player.
pub const LOOKAHEAD: usize = 20;

/// The speed of a fall, in units per second.
pub const GRAVITY: i64 = 1000;

/// The height of the ground line, at which a fall ends: the player's offset
/// below the run's origin.
pub const GROUND_Y: i64 = START_Y - PLAYER_OFFSET;

/// How a committed hop came out.
#[derive(Clone, Copy, Debug, PartialEq, Eq, Structural)]
pub enum JumpOutcome {
    /// The committed direction was the wrong one: the player falls.
    Missed,
    /// The player landed on the next platform, which was the checkpoint or
    /// was not.
    Landed { checkpoint: bool },
}

/// What a run holds.
#[verifier::ext_equal]
pub struct GameModel {
    pub action: PlayerAction,
    pub player: PlayerModel,
    pub track: TrackModel,
    pub check_point: CheckPointModel,
    pub score: ScoreModel,
    pub high_score: ScoreModel,
}

impl GameModel {
    /// Where the player stands when a run starts.
    pub open spec fn start_place() -> Point {
        Point { x: START_X as int, y: START_Y + PLAYER_OFFSET }
    }

    /// The track is well formed and holds at most `LOOKAHEAD` platforms;
    /// the score is one that the counter can hold; every platform ever
    /// generated is either ahead or was climbed, so the
    /// top lies one rise above the origin for each of them; the player
    /// stands in the column from which the next direction leads to the next
    /// platform, no higher than the score has carried them; and the
    /// countdown has not counted past its budget.
    pub open spec fn wf(self) -> bool {
        &&& self.track.wf()
        &&& self.track.path.len() <= LOOKAHEAD
        &&& 0 <= self.score.value <= i32::MAX
        &&& self.track.top.y == START_Y + Y_INC * (self.score.value + self.track.path.len())
        &&& self.player.location.x == self.track.base().x
        &&& self.player.location.y <= START_Y + PLAYER_OFFSET + Y_INC * self.score.value
        &&& self.check_point.elapsed_ms <= CHECK_POINT_TIME
    }

    /// A run that has not started: a fresh player, both scores at zero, no
    /// platform ahead, a full countdown.
    pub open spec fn initial() -> GameModel {
        GameModel {
            action: PlayerAction::Rest,
            player: PlayerModel::fresh(),
            track: TrackModel::empty(),
            check_point: CheckPointModel { elapsed_ms: 0, location: origin() },
            score: ScoreModel { label: score_label(), value: 0 },
            high_score: ScoreModel { label: score_label(), value: 0 },
        }
    }

    /// The run with player, score and track put back to their first state.
    /// The high score, the checkpoint and the state are kept.
    pub open spec fn cleared(self) -> GameModel {
        GameModel {
            player: PlayerModel::fresh(),
            score: ScoreModel { label: score_label(), value: 0 },
            track: TrackModel::empty(),
            ..self
        }
    }

    /// The run with the high score raised to the score where the score is
    /// larger.
    pub open spec fn with_high_score(self) -> GameModel {
        GameModel {
            high_score: ScoreModel {
                value: absorbed(self.high_score.value, self.score.value),
                ..self.high_score
            },
            ..self
        }
    }

    /// A new run whose platforms were generated with the draws `leans`: the
    /// player at the start place, the score at zero, the checkpoint on the
    /// furthest platform with a full countdown, the state at rest. Only the
    /// value of the high score is kept.
    pub open spec fn started(self, leans: Seq<Direction>) -> GameModel {
        let track = TrackModel::empty().seeded(leans);
        GameModel {
            action: PlayerAction::Rest,
            player: PlayerModel { location: GameModel::start_place(), ..PlayerModel::fresh() },
            track: track,
            check_point: CheckPointModel { elapsed_ms: 0, location: track.top },
            score: ScoreModel { label: score_label(), value: 0 },
            high_score: ScoreModel { label: high_score_label(), value: self.high_score.value },
        }
    }

    /// The run after the player has committed to `input`: the direction is
    /// recorded and the hop is pending; the player has not moved.
    pub open spec fn committed(self, input: Direction) -> GameModel {
        GameModel {
            action: PlayerAction::Jump,
            player: PlayerModel { direction: input, ..self.player },
            ..self
        }
    }

    /// Whether the committed direction is the one the track expects.
    pub open spec fn on_course(self) -> bool {
        self.player.direction == self.track.path[0]
    }

    /// Whether the next platform is the checkpoint: the two lie at the same
    /// height.
    pub open spec fn at_checkpoint(self) -> bool {
        self.track.platforms[0].y == self.check_point.location.y
    }

    /// How the pending hop comes out.
    pub open spec fn jump_outcome(self) -> JumpOutcome {
        if self.on_course() {
            JumpOutcome::Landed { checkpoint: self.at_checkpoint() }
        } else {
            JumpOutcome::Missed
        }
    }

    /// The run with the checkpoint claimed: a full countdown, and the
    /// checkpoint moved to the furthest platform.
    pub open spec fn checkpoint_moved(self) -> GameModel {
        GameModel {
            check_point: CheckPointModel { elapsed_ms: 0, location: self.track.top },
            ..self
        }
    }

    /// The run with the player marked as falling.
    pub open spec fn dropped(self) -> GameModel {
        GameModel {
            action: PlayerAction::Fall,
            player: PlayerModel { alive: false, ..self.player },
            ..self
        }
    }

    /// The run after the pending hop is resolved, where the track holds a
    /// platform and generates its next one leaning towards `lean`.
    ///
    /// A wrong direction changes nothing but the state: the player falls. A
    /// right one turns the player that way, claims the checkpoint if the
    /// next platform is it, moves the player one hop, counts one more
    /// point, raises the high score to the score if that is larger, rolls
    /// the track forward by one platform, and puts the run at rest.
    pub open spec fn jumped(self, lean: Direction) -> GameModel {
        if !self.on_course() {
            self.dropped()
        } else {
            let dir = self.track.path[0];
            let score = self.score.value + 1;
            GameModel {
                action: PlayerAction::Rest,
                player: PlayerModel {
                    location: step(self.player.location, dir),
                    facing: dir,
                    ..self.player
                },
                track: self.track.advanced(lean),
                check_point: if self.at_checkpoint() {
                    self.checkpoint_moved().check_point
                } else {
                    self.check_point
                },
                score: ScoreModel { value: score, ..self.score },
                high_score: ScoreModel {
                    value: absorbed(self.high_score.value, score),
                    ..self.high_score
                },
            }
        }
    }

    /// Whether the player has reached or passed the ground line.
    pub open spec fn grounded(self) -> bool {
        self.player.location.y <= GROUND_Y
    }

    /// The distance fallen in `dt_ms` milliseconds.
    pub open spec fn drop_of(dt_ms: nat) -> int {
        GRAVITY * dt_ms / 1000
    }

    /// The run after `dt_ms` milliseconds of falling. Above the ground line
    /// the player sinks by the distance fallen. On or below it the fall is
    /// over: the state goes back to rest and the high score takes in the
    /// score.
    pub open spec fn fallen(self, dt_ms: nat) -> GameModel {
        if !self.grounded() {
            GameModel {
                player: PlayerModel {
                    location: Point {
                        x: self.player.location.x,
                        y: self.player.location.y - GameModel::drop_of(dt_ms),
                    },
                    ..self.player
                },
                ..self
            }
        } else {
            GameModel { action: PlayerAction::Rest, ..self.with_high_score() }
        }
    }

    /// The run after the ticks `dts` of a fall, in milliseconds each: a tick
    /// lets the player fall while the run is in the falling state, and is
    /// passed over once the fall has ended.
    pub open spec fn fallen_through(self, dts: Seq<nat>) -> GameModel
        decreases dts.len(),
    {
        if dts.len() == 0 {
            self
        } else {
            let before = self.fallen_through(dts.drop_last());
            if before.action == PlayerAction::Fall {
                before.fallen(dts.last())
            } else {
                before
            }
        }
    }

    /// How many of the ticks `dts` of a fall report that the run is over.
    pub open spec fn game_overs(self, dts: Seq<nat>) -> nat
        decreases dts.len(),
    {
        if dts.len() == 0 {
            0
        } else {
            let before = self.fallen_through(dts.drop_last());
            let reports: nat = if before.action == PlayerAction::Fall && before.grounded() {
                1
            } else {
                0
            };
            self.game_overs(dts.drop_last()) + reports
        }
    }

    /// The distance fallen over the ticks `dts`.
    pub open spec fn total_drop(dts: Seq<nat>) -> int
        decreases dts.len(),
    {
        if dts.len() == 0 {
            0
        } else {
            GameModel::total_drop(dts.drop_last()) + GameModel::drop_of(dts.last())
        }
    }

    /// Whether the countdown forces a fall: it has run out, and the player
    /// is not falling yet.
    pub open spec fn out_of_time(self) -> bool {
        self.check_point.expired() && self.action != PlayerAction::Fall
    }

    /// The run after the countdown was checked.
    pub open spec fn timed_out(self) -> GameModel {
        if self.out_of_time() {
            self.dropped()
        } else {
            self
        }
    }

    /// The run after `dt_ms` milliseconds on the countdown.
    pub open spec fn clocked(self, dt_ms: nat) -> GameModel {
        GameModel { check_point: self.check_point.ticked(dt_ms), ..self }
    }
}

/// The run.
pub struct Game {
    player: Player,
    pub score: Score,
    pub high_score: Score,
    track: PlatformTrack,
    check_point: CheckPoint,
    action: PlayerAction,
}

impl View for Game {
    type V = GameModel;

    closed spec fn view(&self) -> GameModel {
        GameModel {
            action: self.action,
            player: self.player@,
            track: self.track@,
            check_point: self.check_point@,
            score: self.score@,
            high_score: self.high_score@,
        }
    }
}

impl Default for Game {
    fn default() -> (game: Game)
        ensures
            game.wf(),
            game@ == GameModel::initial(),
    {
        Game::new()
    }
}

impl Game {
    /// The countdown inside the checkpoint is well formed.
    pub closed spec fn timer_wf(&self) -> bool {
        self.check_point.wf()
    }

    /// The run is well formed.
    pub open spec fn wf(&self) -> bool {
        self@.wf() && self.timer_wf()
    }

    /// A run that has not started.
    pub fn new() -> (game: Game)
        ensures
            game.wf(),
            game@ == GameModel::initial(),
    {
        let game = Game {
            player: Player::default(),
            score: Score::default(),
            high_score: Score::default(),
            track: PlatformTrack::new(),
            check_point: CheckPoint::default(),
            action: PlayerAction::Rest,
        };
        assert(game@ =~= GameModel::initial());
        game
    }

    /// The player.
    pub fn player(&self) -> (player: Player)
        ensures
            player@ == self@.player,
    {
        self.player
    }

    /// The state of the run.
    pub fn action(&self) -> (action: PlayerAction)
        ensures
            action == self@.action,
    {
        self.action
    }

    /// The running score.
    pub fn score(&self) -> (score: &Score)
        ensures
            score@ == self@.score,
    {
        &self.score
    }

    /// The high score.
    pub fn high_score(&self) -> (score: &Score)
        ensures
            score@ == self@.high_score,
    {
        &self.high_score
    }

    /// The track.
    pub fn track(&self) -> (track: &PlatformTrack)
        ensures
            track@ == self@.track,
    {
        &self.track
    }

    /// The checkpoint.
    pub fn check_point(&self) -> (cp: &CheckPoint)
        ensures
            cp@ == self@.check_point,
            self.timer_wf() ==> cp.wf(),
    {
        &self.check_point
    }

    /// The direction the player must choose next.
    pub fn peek_expected(&self) -> (r: Result<Direction, EmptyTrackError>)
        ensures
            self@.track.path.len() == 0 ==> r == Err::<Direction, EmptyTrackError>(
                EmptyTrackError,
            ),
            self@.track.path.len() > 0 ==> r == Ok::<Direction, EmptyTrackError>(
                self@.track.path[0],
            ),
    {
        self.track.peek_expected()
    }

    /// The furthest place generated so far.
    pub fn top_location(&self) -> (loc: Location)
        ensures
            loc@ == self@.track.top,
    {
        self.track.top_location()
    }

    /// Puts player, score and track back to their first state.
    pub fn reset(&mut self)
        ensures
            final(self)@ == old(self)@.cleared(),
            old(self).timer_wf() ==> final(self).wf(),
    {
        self.player = Player::default();
        self.score = Score::default();
        self.track.clear();
        proof {
            assert(self@ =~= old(self)@.cleared());
            if old(self).timer_wf() {
                self.check_point.timer.lemma_elapsed_within_budget();
            }
        }
    }

    /// Raises the high score to the score where the score is larger.
    pub fn set_high_score(&mut self)
        ensures
            final(self)@ == old(self)@.with_high_score(),
            final(self).timer_wf() == old(self).timer_wf(),
            old(self).wf() ==> final(self).wf(),
    {
        self.high_score.absorb(self.score.value);
        assert(self@ =~= old(self)@.with_high_score());
    }

    /// Starts a run whose platforms are generated with the draws `leans`.
    pub fn start_game_with(&mut self, leans: &Vec<Direction>)
        requires
            old(self).wf(),
            leans@.len() <= LOOKAHEAD,
        ensures
            final(self).wf(),
            final(self)@ == old(self)@.started(leans@),
    {
        self.reset();
        spawn_player(self);
        self.high_score.init_high_score();
        proof {
            lemma_seeded_wf(self.track@, leans@);
        }
        self.track.seed_with(leans);
        spawn_checkpoint(self);
        self.action = PlayerAction::Rest;
        assert(self@ =~= old(self)@.started(leans@));
    }

    /// Starts a run with `LOOKAHEAD` platforms, each generated in a
    /// direction drawn at random where the playfield's edges leave a choice.
    pub fn start_game(&mut self)
        requires
            old(self).wf(),
        ensures
            final(self).wf(),
            exists|leans: Seq<Direction>|
                leans.len() == LOOKAHEAD && final(self)@ == #[trigger] old(self)@.started(leans),
    {
        self.reset();
        spawn_player(self);
        self.high_score.init_high_score();
        let ghost before = self@;
        init_platforms(self);
        spawn_checkpoint(self);
        self.action = PlayerAction::Rest;
        proof {
            let leans = choose|leans: Seq<Direction>|
                leans.len() == LOOKAHEAD && self@.track == #[trigger] before.track.seeded(leans);
            assert(self@ =~= old(self)@.started(leans));
        }
    }

    /// Commits the player to `input`: the hop is pending, the player has
    /// not moved.
    pub fn handle_rest(&mut self, input: Direction)
        requires
            old(self).wf(),
            old(self)@.action == PlayerAction::Rest,
        ensures
            final(self).wf(),
            final(self)@ == old(self)@.committed(input),
    {
        self.player.direction = input;
        self.action = PlayerAction::Jump;
        assert(self@ =~= old(self)@.committed(input));
    }

    /// Resolves the pending hop, the track generating its next platform
    /// leaning towards `lean`. With no platform ahead there is nothing to
    /// hop to: the run is left as it is. A hop that lands needs room in the
    /// score for one more point; a hop that misses needs none.
    pub fn resolve_jump(&mut self, lean: Direction) -> (r: Result<JumpOutcome, EmptyTrackError>)
        requires
            old(self).wf(),
            old(self)@.action == PlayerAction::Jump,
            old(self)@.track.path.len() > 0 && old(self)@.on_course() ==> old(self)@.score.value
                < i32::MAX,
        ensures
            final(self).wf(),
            old(self)@.track.path.len() == 0 ==> r is Err && final(self)@ == old(self)@,
            old(self)@.track.path.len() > 0 ==> r == Ok::<JumpOutcome, EmptyTrackError>(
                old(self)@.jump_outcome(),
            ) && final(self)@ == old(self)@.jumped(lean),
    {
        let expected = match self.track.peek_expected() {
            Ok(d) => d,
            Err(e) => {
                return Err(e);
            },
        };
        let landing = match self.track.peek_location() {
            Ok(loc) => loc,
            Err(e) => {
                return Err(e);
            },
        };
        if expected != self.player.direction {
            self.player.alive = false;
            self.action = PlayerAction::Fall;
            assert(self@ =~= old(self)@.jumped(lean));
            return Ok(JumpOutcome::Missed);
        }
        self.player.facing = expected;
        let checkpoint = landing.y == self.check_point.location.y;
        if checkpoint {
            move_checkpoint(self);
        }
        self.player.increment();
        self.score.increment();
        self.set_high_score();
        proof {
            lemma_advanced_wf(old(self)@.track, lean);
        }
        let _ = self.track.advance_with(lean);
        self.action = PlayerAction::Rest;
        assert(self@ =~= old(self)@.jumped(lean));
        Ok(JumpOutcome::Landed { checkpoint })
    }

    /// Resolves the pending hop, the track generating its next platform in
    /// a direction drawn at random where the playfield's edges leave a
    /// choice.
    pub fn handle_jump(&mut self) -> (r: Result<JumpOutcome, EmptyTrackError>)
        requires
            old(self).wf(),
            old(self)@.action == PlayerAction::Jump,
            old(self)@.track.path.len() > 0 && old(self)@.on_course() ==> old(self)@.score.value
                < i32::MAX,
        ensures
            final(self).wf(),
            old(self)@.track.path.len() == 0 ==> r is Err && final(self)@ == old(self)@,
            old(self)@.track.path.len() > 0 ==> r == Ok::<JumpOutcome, EmptyTrackError>(
                old(self)@.jump_outcome(),
            ) && exists|lean: Direction| final(self)@ == old(self)@.jumped(lean),
    {
        let lean = gen_rand_dir();
        self.resolve_jump(lean)
    }

    /// Lets the player fall for `dt_ms` milliseconds, and says whether the
    /// run is over: it is when the player had reached the ground line
    /// already.
    pub fn handle_fall(&mut self, dt_ms: u32) -> (game_over: bool)
        requires
            old(self).wf(),
            old(self)@.action == PlayerAction::Fall,
        ensures
            final(self).wf(),
            final(self)@ == old(self)@.fallen(dt_ms as nat),
            game_over == old(self)@.grounded(),
    {
        if self.player.location.y > GROUND_Y {
            let drop = GRAVITY * (dt_ms as i64) / 1000;
            self.player.location.y = self.player.location.y - drop;
            assert(self@ =~= old(self)@.fallen(dt_ms as nat));
            false
        } else {
            self.action = PlayerAction::Rest;
            self.set_high_score();
            assert(self@ =~= old(self)@.fallen(dt_ms as nat));
            true
        }
    }

    /// Checks the countdown, and says whether it forced a fall: it does
    /// when it has run out and the player is not falling yet.
    pub fn timer_check(&mut self) -> (forced: bool)
        requires
            old(self).wf(),
        ensures
            final(self).wf(),
            final(self)@ == old(self)@.timed_out(),
            forced == old(self)@.out_of_time(),
    {
        if self.check_point.timer.expired() && self.action != PlayerAction::Fall {
            self.player.alive = false;
            self.action = PlayerAction::Fall;
            assert(self@ =~= old(self)@.timed_out());
            true
        } else {
            false
        }
    }
}

/// Puts the player at the start place of a run that has no platform yet.
pub fn spawn_player(game: &mut Game)
    requires
        old(game).wf(),
        old(game)@.track.path.len() == 0,
    ensures
        final(game).wf(),
        final(game)@ == (GameModel {
            player: PlayerModel { location: GameModel::start_place(), ..old(game)@.player },
            ..old(game)@
        }),
{
    game.player.location = Location { x: START_X, y: START_Y + PLAYER_OFFSET };
    assert(game@ =~= (GameModel {
        player: PlayerModel { location: GameModel::start_place(), ..old(game)@.player },
        ..old(game)@
    }));
}

/// Fills the empty track of a run with `LOOKAHEAD` platforms, each generated
/// in a direction drawn at random where the playfield's edges leave a
/// choice.
pub fn init_platforms(game: &mut Game)
    requires
        old(game).wf(),
        old(game)@.track.path.len() == 0,
    ensures
        final(game).wf(),
        exists|leans: Seq<Direction>|
            leans.len() == LOOKAHEAD && final(game)@ == (GameModel {
                track: #[trigger] old(game)@.track.seeded(leans),
                ..old(game)@
            }),
{
    game.track.seed(LOOKAHEAD);
    proof {
        let leans = choose|leans: Seq<Direction>|
            leans.len() == LOOKAHEAD && game.track@ == #[trigger] old(game)@.track.seeded(leans);
        lemma_seeded_wf(old(game)@.track, leans);
        assert(game@ =~= (GameModel { track: old(game)@.track.seeded(leans), ..old(game)@ }));
    }
}

/// Generates one more platform at the far end of the track, in a direction
/// drawn at random where the playfield's edges leave a choice. The track
/// stays in lock-step and on the playfield; the run as a whole stays well
/// formed where its window was not yet full.
pub fn increment_platform(game: &mut Game)
    requires
        old(game)@.track.wf(),
        old(game)@.track.has_room(1),
    ensures
        exists|lean: Direction|
            final(game)@ == (GameModel {
                track: #[trigger] old(game)@.track.extended(lean),
                ..old(game)@
            }),
        final(game)@.track.wf(),
        final(game).timer_wf() == old(game).timer_wf(),
        old(game).wf() && old(game)@.track.path.len() < LOOKAHEAD ==> final(game).wf(),
{
    game.track.extend_one();
    proof {
        let lean = choose|lean: Direction| game.track@ == old(game)@.track.extended(lean);
        lemma_extended_wf(old(game)@.track, lean);
        assert(game@ =~= (GameModel { track: old(game)@.track.extended(lean), ..old(game)@ }));
    }
}

/// Places a new checkpoint, with a full countdown, on the furthest
/// platform.
pub fn spawn_checkpoint(game: &mut Game)
    ensures
        final(game)@ == old(game)@.checkpoint_moved(),
        final(game).timer_wf(),
        old(game)@.wf() ==> final(game).wf(),
{
    game.check_point = CheckPoint::new(game.track.top_location());
    assert(game@ =~= old(game)@.checkpoint_moved());
}

/// Claims the checkpoint: the countdown is full again, and the checkpoint
/// moves to the furthest platform.
pub fn move_checkpoint(game: &mut Game)
    requires
        old(game).timer_wf(),
    ensures
        final(game)@ == old(game)@.checkpoint_moved(),
        final(game).timer_wf(),
        old(game)@.wf() ==> final(game).wf(),
{
    game.check_point.timer.reset();
    game.check_point.location = game.track.top_location();
    assert(game@ =~= old(game)@.checkpoint_moved());
}

/// Counts `dt_ms` milliseconds on the countdown and gives the text of the
/// time display.
pub fn update_display_checkpoint(game: &mut Game, dt_ms: u32) -> (text: String)
    requires
        old(game).wf(),
    ensures
        final(game).wf(),
        final(game)@ == old(game)@.clocked(dt_ms as nat),
        text@ == time_label() + decimal(seconds_shown(final(game)@.check_point.elapsed_ms)),
{
    game.check_point.timer.tick(dt_ms);
    assert(game@ =~= old(game)@.clocked(dt_ms as nat));
    game.check_point.to_string()
}

/// A hop in the expected direction puts the run at rest, counts exactly
/// one point and moves the player by exactly one hop in that direction.
pub proof fn lemma_right_direction_lands(g: GameModel, lean: Direction)
    requires
        g.track.path.len() > 0,
        g.action == PlayerAction::Jump,
        g.player.direction == g.track.path[0],
    ensures
        g.jumped(lean).action == PlayerAction::Rest,
        g.jumped(lean).score.value == g.score.value + 1,
        g.jumped(lean).player.location.x == g.player.location.x + dx(g.player.direction),
        g.jumped(lean).player.location.y == g.player.location.y + Y_INC,
        g.jump_outcome() is Landed,
{
}

/// A hop in any other direction makes the player fall: no point is
/// counted, and neither the player nor the track moves.
pub proof fn lemma_wrong_direction_falls(g: GameModel, lean: Direction)
    requires
        g.track.path.len() > 0,
        g.action == PlayerAction::Jump,
        g.player.direction != g.track.path[0],
    ensures
        g.jumped(lean).action == PlayerAction::Fall,
        g.jumped(lean).score == g.score,
        g.jumped(lean).high_score == g.high_score,
        g.jumped(lean).player.location == g.player.location,
        g.jumped(lean).track == g.track,
        g.jumped(lean).check_point == g.check_point,
        g.jump_outcome() is Missed,
{
}

/// Resolving a hop keeps a run well formed, as long as a hop that lands
/// finds room in the score for one more point: the track stays in lock-step
/// and on the playfield, and the player stays in the column below the next
/// platform.
pub proof fn lemma_jumped_wf(g: GameModel, lean: Direction)
    requires
        g.wf(),
        g.track.path.len() > 0,
        g.on_course() ==> g.score.value < i32::MAX,
    ensures
        g.jumped(lean).wf(),
        g.jumped(lean).track.path.len() == g.track.path.len(),
        in_bounds(g.jumped(lean).player.location.x),
{
    lemma_advanced_wf(g.track, lean);
}

/// The high score never falls below the score of a hop that landed.
pub proof fn lemma_high_score_follows_score(g: GameModel, lean: Direction)
    requires
        g.track.path.len() > 0,
        g.on_course(),
    ensures
        g.jumped(lean).high_score.value >= g.jumped(lean).score.value,
        g.jumped(lean).high_score.value >= g.high_score.value,
        g.high_score.value >= g.score.value + 1 ==> g.jumped(lean).high_score == g.high_score,
{
}

/// A fall sinks by one unit for each millisecond, since gravity is a
/// thousand units per second.
pub proof fn lemma_drop_is_one_unit_per_millisecond(dt_ms: nat)
    ensures
        GameModel::drop_of(dt_ms) == dt_ms,
{
}

/// Over the ticks of a fall the end of the run is reported at most once,
/// and exactly when the run has gone back to rest. While the fall lasts the
/// player has sunk by the distance fallen and nothing else has changed; at
/// its end the high score has taken in the score.
pub proof fn lemma_fall_reports_once(g: GameModel, dts: Seq<nat>)
    requires
        g.action == PlayerAction::Fall,
    ensures
        g.game_overs(dts) <= 1,
        g.game_overs(dts) == 1 <==> g.fallen_through(dts).action == PlayerAction::Rest,
        g.game_overs(dts) == 0 <==> g.fallen_through(dts).action == PlayerAction::Fall,
        g.fallen_through(dts).player.location.x == g.player.location.x,
        g.fallen_through(dts).player.location.y <= g.player.location.y,
        g.fallen_through(dts).action == PlayerAction::Fall ==> g.fallen_through(dts) == (GameModel {
            player: PlayerModel {
                location: Point {
                    x: g.player.location.x,
                    y: g.player.location.y - GameModel::total_drop(dts),
                },
                ..g.player
            },
            ..g
        }),
        g.fallen_through(dts).action == PlayerAction::Rest ==> g.fallen_through(dts).grounded()
            && g.fallen_through(dts).high_score == g.with_high_score().high_score,
        g.fallen_through(dts).score == g.score,
        g.fallen_through(dts).track == g.track,
        g.fallen_through(dts).check_point == g.check_point,
        GameModel::total_drop(dts) >= 0,
    decreases dts.len(),
{
    if dts.len() > 0 {
        lemma_fall_reports_once(g, dts.drop_last());
    }
}

/// Every tick of a fall that finds the player above the ground line sinks
/// the player by as many units as it lasts milliseconds, and reports
/// nothing.
pub proof fn lemma_fall_tick_above_ground(g: GameModel, dt_ms: nat)
    requires
        g.action == PlayerAction::Fall,
        !g.grounded(),
    ensures
        g.fallen(dt_ms).action == PlayerAction::Fall,
        g.fallen(dt_ms).player.location.y == g.player.location.y - dt_ms,
        dt_ms > 0 ==> g.fallen(dt_ms).player.location.y < g.player.location.y,
{
}

/// Ticks that last at least `least` milliseconds each sink the player by at
/// least `least` units each.
pub proof fn lemma_total_drop_at_least(dts: Seq<nat>, least: nat)
    requires
        forall|i: int| 0 <= i < dts.len() ==> #[trigger] dts[i] >= least,
    ensures
        GameModel::total_drop(dts) >= dts.len() * least,
    decreases dts.len(),
{
    if dts.len() > 0 {
        let rest = dts.drop_last();
        assert forall|i: int| 0 <= i < rest.len() implies #[trigger] rest[i] >= least by {
            assert(rest[i] == dts[i]);
        }
        lemma_total_drop_at_least(rest, least);
        assert(dts.last() >= least);
        assert(dts.len() * least == rest.len() * least + least) by (nonlinear_arith)
            requires
                dts.len() == rest.len() + 1,
        ;
    }
}

/// A fall ends: where every tick lasts at least `least` milliseconds, and
/// the ticks but the last would carry the player from the height of the
/// fall down to the ground line, the end of the run is reported, exactly
/// once, and the run is at rest.
pub proof fn lemma_fall_ends(g: GameModel, dts: Seq<nat>, least: nat)
    requires
        g.action == PlayerAction::Fall,
        dts.len() > 0,
        forall|i: int| 0 <= i < dts.len() ==> #[trigger] dts[i] >= least,
        (dts.len() - 1) * least >= g.player.location.y - GROUND_Y,
    ensures
        g.game_overs(dts) == 1,
        g.fallen_through(dts).action == PlayerAction::Rest,
{
    let rest = dts.drop_last();
    lemma_fall_reports_once(g, dts);
    lemma_fall_reports_once(g, rest);
    assert forall|i: int| 0 <= i < rest.len() implies #[trigger] rest[i] >= least by {
        assert(rest[i] == dts[i]);
    }
    lemma_total_drop_at_least(rest, least);
    let before = g.fallen_through(rest);
    if before.action == PlayerAction::Fall {
        assert(before.player.location.y == g.player.location.y - GameModel::total_drop(rest));
        assert(before.grounded());
    }
}

} // verus!
