//! The platform track: the rolling window of platforms ahead of the player
//! and the direction that leads to each.

use crate::geometry::{
    in_bounds, increment_loc, origin, step, Direction, Location, Point, Y_INC, dx,
};
use crate::path::{gen_rand_dir, next_dir, out_of_bounds};
use vstd::prelude::*;

verus! {

/// The track was read while it held no platform.
#[derive(Clone, Copy, Debug, PartialEq, Eq, Structural)]
pub struct EmptyTrackError;

/// What a track holds: the platforms ahead, nearest first, the direction
/// that leads to each, and the furthest place generated so far.
#[verifier::ext_equal]
pub struct TrackModel {
    pub path: Seq<Direction>,
    pub platforms: Seq<Point>,
    pub top: Point,
}

impl TrackModel {
    /// The track before anything is generated: nothing ahead, the top at the
    /// run's origin.
    pub open spec fn empty() -> TrackModel {
        TrackModel { path: Seq::empty(), platforms: Seq::empty(), top: origin() }
    }

    /// The place from which the first direction leads to the first
    /// platform; on a track with nothing ahead, the top.
    pub open spec fn base(self) -> Point {
        if self.platforms.len() > 0 {
            Point {
                x: self.platforms[0].x - dx(self.path[0]),
                y: self.platforms[0].y - Y_INC,
            }
        } else {
            self.top
        }
    }

    /// Whether the `i`-th platform is one hop from the one before it, in the
    /// `i`-th direction.
    pub open spec fn linked(self, i: int) -> bool {
        self.platforms[i] == step(self.platforms[i - 1], self.path[i])
    }

    /// Both sequences run in lock-step, every platform is one hop from the
    /// one before it in the direction stored with it, every place lies on
    /// the playfield, and the top is the last platform, or the run's origin
    /// where nothing lies ahead.
    pub open spec fn wf(self) -> bool {
        &&& self.path.len() == self.platforms.len()
        &&& in_bounds(self.top.x)
        &&& in_bounds(self.base().x)
        &&& forall|i: int| 0 <= i < self.platforms.len() ==> in_bounds(#[trigger] self.platforms[i].x)
        &&& forall|i: int| 1 <= i < self.platforms.len() ==> #[trigger] self.linked(i)
        &&& self.platforms.len() > 0 ==> self.platforms.last() == self.top
        &&& self.platforms.len() == 0 ==> self.top == origin()
    }

    /// The track with one more platform generated at the far end, by a
    /// generator that leans towards `lean`.
    pub open spec fn extended(self, lean: Direction) -> TrackModel {
        let d = next_dir(self.top.x, lean);
        let p = step(self.top, d);
        TrackModel { path: self.path.push(d), platforms: self.platforms.push(p), top: p }
    }

    /// The track after the player has taken the nearest platform: one more
    /// platform is generated at the far end, then the nearest one leaves.
    pub open spec fn advanced(self, lean: Direction) -> TrackModel {
        let e = self.extended(lean);
        TrackModel { path: e.path.drop_first(), platforms: e.platforms.drop_first(), top: e.top }
    }

    /// The track with one platform generated for each of `leans`, in order.
    pub open spec fn seeded(self, leans: Seq<Direction>) -> TrackModel
        decreases leans.len(),
    {
        if leans.len() == 0 {
            self
        } else {
            self.seeded(leans.drop_last()).extended(leans.last())
        }
    }

    /// Whether `n` more platforms can be generated within the machine's
    /// integers.
    pub open spec fn has_room(self, n: nat) -> bool {
        self.top.y + n * Y_INC <= i64::MAX
    }
}

/// The platform track.
pub struct PlatformTrack {
    top_platform_loc: Location,
    correct_path: Vec<Direction>,
    platforms: Vec<Location>,
}

impl View for PlatformTrack {
    type V = TrackModel;

    closed spec fn view(&self) -> TrackModel {
        TrackModel {
            path: self.correct_path@,
            platforms: self.platforms@.map_values(|l: Location| l@),
            top: self.top_platform_loc@,
        }
    }
}

impl Default for PlatformTrack {
    fn default() -> (track: PlatformTrack)
        ensures
            track@ == TrackModel::empty(),
    {
        PlatformTrack::new()
    }
}

impl PlatformTrack {
    /// A track with nothing ahead, its top at the run's origin.
    pub fn new() -> (track: PlatformTrack)
        ensures
            track@ == TrackModel::empty(),
    {
        let track = PlatformTrack {
            top_platform_loc: Location::default(),
            correct_path: Vec::new(),
            platforms: Vec::new(),
        };
        assert(track@ =~= TrackModel::empty());
        track
    }

    /// The number of platforms ahead.
    pub fn len(&self) -> (n: usize)
        ensures
            n == self@.platforms.len(),
    {
        self.platforms.len()
    }

    /// Whether no platform lies ahead.
    pub fn is_empty(&self) -> (b: bool)
        ensures
            b == (self@.platforms.len() == 0),
    {
        self.platforms.len() == 0
    }

    /// The direction the player must choose next.
    pub fn peek_expected(&self) -> (r: Result<Direction, EmptyTrackError>)
        ensures
            self@.path.len() == 0 ==> r == Err::<Direction, EmptyTrackError>(EmptyTrackError),
            self@.path.len() > 0 ==> r == Ok::<Direction, EmptyTrackError>(self@.path[0]),
    {
        if self.correct_path.len() == 0 {
            Err(EmptyTrackError)
        } else {
            Ok(self.correct_path[0])
        }
    }

    /// The place of the nearest platform ahead.
    pub fn peek_location(&self) -> (r: Result<Location, EmptyTrackError>)
        ensures
            self@.platforms.len() == 0 ==> r == Err::<Location, EmptyTrackError>(EmptyTrackError),
            self@.platforms.len() > 0 ==> r is Ok && r->Ok_0@ == self@.platforms[0],
    {
        if self.platforms.len() == 0 {
            Err(EmptyTrackError)
        } else {
            Ok(self.platforms[0])
        }
    }

    /// The place of the `i`-th platform ahead, nearest first.
    pub fn platform(&self, i: usize) -> (r: Option<Location>)
        ensures
            i >= self@.platforms.len() ==> r is None,
            i < self@.platforms.len() ==> r is Some && r->Some_0@ == self@.platforms[i as int],
    {
        if i < self.platforms.len() {
            Some(self.platforms[i])
        } else {
            None
        }
    }

    /// The furthest place generated so far.
    pub fn top_location(&self) -> (loc: Location)
        ensures
            loc@ == self@.top,
    {
        self.top_platform_loc
    }

    /// Generates one more platform at the far end, leaning towards `lean`.
    pub fn extend_with(&mut self, lean: Direction)
        requires
            old(self)@.wf(),
            old(self)@.has_room(1),
        ensures
            final(self)@ == old(self)@.extended(lean),
            final(self)@.wf(),
    {
        let mut dir = lean;
        out_of_bounds(&self.top_platform_loc, &mut dir);
        increment_loc(&mut self.top_platform_loc, &dir);
        self.correct_path.push(dir);
        self.platforms.push(self.top_platform_loc);
        proof {
            let pre = old(self)@;
            assert(self@.platforms =~= pre.platforms.push(self.top_platform_loc@));
            assert(self@ =~= pre.extended(lean));
            lemma_extended_wf(pre, lean);
        }
    }

    /// Generates one more platform at the far end, in a direction drawn at
    /// random where the playfield's edges leave a choice.
    pub fn extend_one(&mut self)
        requires
            old(self)@.wf(),
            old(self)@.has_room(1),
        ensures
            exists|lean: Direction| final(self)@ == old(self)@.extended(lean),
            final(self)@.wf(),
    {
        let lean = gen_rand_dir();
        self.extend_with(lean);
    }

    /// Generates one platform for each of `leans`, in order.
    pub fn seed_with(&mut self, leans: &Vec<Direction>)
        requires
            old(self)@.wf(),
            old(self)@.has_room(leans@.len()),
        ensures
            final(self)@ == old(self)@.seeded(leans@),
            final(self)@.wf(),
    {
        let n = leans.len();
        let mut i: usize = 0;
        while i < n
            invariant
                i <= n,
                n == leans@.len(),
                self@.wf(),
                self@ == old(self)@.seeded(leans@.take(i as int)),
                old(self)@.wf(),
                old(self)@.has_room(n as nat),
            decreases n - i,
        {
            proof {
                lemma_seeded_wf(old(self)@, leans@.take(i as int));
                assert(leans@.take(i + 1).drop_last() =~= leans@.take(i as int));
            }
            self.extend_with(leans[i]);
            i = i + 1;
        }
        assert(leans@.take(n as int) =~= leans@);
    }

    /// Generates `n` platforms, each in a direction drawn at random where
    /// the playfield's edges leave a choice.
    pub fn seed(&mut self, n: usize)
        requires
            old(self)@.wf(),
            old(self)@.has_room(n as nat),
        ensures
            exists|leans: Seq<Direction>|
                leans.len() == n && final(self)@ == #[trigger] old(self)@.seeded(leans),
            final(self)@.wf(),
    {
        let ghost mut leans: Seq<Direction> = Seq::empty();
        let mut i: usize = 0;
        while i < n
            invariant
                i <= n,
                leans.len() == i,
                self@.wf(),
                self@ == old(self)@.seeded(leans),
                old(self)@.wf(),
                old(self)@.has_room(n as nat),
            decreases n - i,
        {
            let ghost before = self@;
            proof {
                lemma_seeded_wf(old(self)@, leans);
            }
            self.extend_one();
            proof {
                let lean = choose|lean: Direction| self@ == before.extended(lean);
                assert(leans.push(lean).drop_last() =~= leans);
                leans = leans.push(lean);
            }
            i = i + 1;
        }
    }

    /// Takes the nearest platform off the track and generates one more at
    /// the far end, leaning towards `lean`. A track with nothing ahead is
    /// left as it is.
    pub fn advance_with(&mut self, lean: Direction) -> (r: Result<(), EmptyTrackError>)
        requires
            old(self)@.wf(),
            old(self)@.has_room(1),
        ensures
            old(self)@.path.len() == 0 ==> r is Err && final(self)@ == old(self)@,
            old(self)@.path.len() > 0 ==> r is Ok && final(self)@ == old(self)@.advanced(lean),
            final(self)@.wf(),
            final(self)@.path.len() == final(self)@.platforms.len(),
            final(self)@.path.len() == old(self)@.path.len(),
    {
        if self.correct_path.len() == 0 {
            return Err(EmptyTrackError);
        }
        self.extend_with(lean);
        let ghost grown = self@;
        self.correct_path.remove(0);
        self.platforms.remove(0);
        proof {
            let pre = old(self)@;
            assert(self@.path =~= grown.path.drop_first());
            assert(self@.platforms =~= grown.platforms.drop_first());
            assert(self@ =~= pre.advanced(lean));
            lemma_advanced_wf(pre, lean);
        }
        Ok(())
    }

    /// Takes the nearest platform off the track and generates one more at
    /// the far end, in a direction drawn at random where the playfield's
    /// edges leave a choice. A track with nothing ahead is left as it is.
    pub fn advance_one(&mut self) -> (r: Result<(), EmptyTrackError>)
        requires
            old(self)@.wf(),
            old(self)@.has_room(1),
        ensures
            old(self)@.path.len() == 0 ==> r is Err && final(self)@ == old(self)@,
            old(self)@.path.len() > 0 ==> r is Ok && exists|lean: Direction|
                final(self)@ == old(self)@.advanced(lean),
            final(self)@.wf(),
            final(self)@.path.len() == final(self)@.platforms.len(),
            final(self)@.path.len() == old(self)@.path.len(),
    {
        let lean = gen_rand_dir();
        self.advance_with(lean)
    }

    /// Forgets every platform and puts the top back at the run's origin.
    pub fn clear(&mut self)
        ensures
            final(self)@ == TrackModel::empty(),
    {
        self.top_platform_loc = Location::default();
        self.correct_path = Vec::new();
        self.platforms = Vec::new();
        assert(self@ =~= TrackModel::empty());
    }
}

/// Generating one more platform keeps a track well formed, whichever way the
/// generator leans.
pub proof fn lemma_extended_wf(t: TrackModel, lean: Direction)
    requires
        t.wf(),
    ensures
        t.extended(lean).wf(),
        t.extended(lean).path.len() == t.path.len() + 1,
        t.extended(lean).base() == t.base(),
        t.extended(lean).top.y == t.top.y + Y_INC,
{
    let e = t.extended(lean);
    assert forall|i: int| 1 <= i < e.platforms.len() implies #[trigger] e.linked(i) by {
        if i < t.platforms.len() {
            assert(t.linked(i));
        }
    }
}

/// Taking the nearest platform keeps a track well formed and as long as it
/// was.
pub proof fn lemma_advanced_wf(t: TrackModel, lean: Direction)
    requires
        t.wf(),
        t.path.len() > 0,
    ensures
        t.advanced(lean).wf(),
        t.advanced(lean).path.len() == t.path.len(),
        t.advanced(lean).platforms.len() == t.platforms.len(),
        t.advanced(lean).base() == t.platforms[0],
{
    lemma_extended_wf(t, lean);
    let e = t.extended(lean);
    let a = t.advanced(lean);
    assert(e.linked(1));
    assert forall|i: int| 1 <= i < a.platforms.len() implies #[trigger] a.linked(i) by {
        assert(e.linked(i + 1));
    }
    assert forall|i: int| 0 <= i < a.platforms.len() implies in_bounds(
        #[trigger] a.platforms[i].x,
    ) by {
        assert(in_bounds(e.platforms[i + 1].x));
    }
}

/// Seeding keeps a track well formed and what it held in place, adds one
/// platform for each draw and raises the top by one hop for each.
pub proof fn lemma_seeded_wf(t: TrackModel, leans: Seq<Direction>)
    requires
        t.wf(),
    ensures
        t.seeded(leans).wf(),
        t.seeded(leans).path.len() == t.path.len() + leans.len(),
        t.seeded(leans).top.y == t.top.y + leans.len() * Y_INC,
        t.seeded(leans).path.take(t.path.len() as int) == t.path,
        t.seeded(leans).platforms.take(t.platforms.len() as int) == t.platforms,
        t.seeded(leans).base() == t.base(),
    decreases leans.len(),
{
    if leans.len() == 0 {
        assert(t.path.take(t.path.len() as int) =~= t.path);
        assert(t.platforms.take(t.platforms.len() as int) =~= t.platforms);
    } else {
        let before = t.seeded(leans.drop_last());
        lemma_seeded_wf(t, leans.drop_last());
        lemma_extended_wf(before, leans.last());
        let after = before.extended(leans.last());
        assert(after.path.take(t.path.len() as int) =~= before.path.take(t.path.len() as int));
        assert(after.platforms.take(t.platforms.len() as int) =~= before.platforms.take(
            t.platforms.len() as int,
        ));
    }
}

/// However many platforms are generated from the run's origin, and
/// whichever way the draws come out, every one of them lies on the
/// playfield.
pub proof fn lemma_generated_on_playfield(leans: Seq<Direction>, i: int)
    requires
        0 <= i < leans.len(),
    ensures
        TrackModel::empty().seeded(leans).platforms.len() == leans.len(),
        in_bounds(TrackModel::empty().seeded(leans).platforms[i].x),
{
    lemma_seeded_wf(TrackModel::empty(), leans);
}

/// On every well-formed track, taking the nearest platform leaves as many
/// directions as platforms, as there were before, and every platform on the
/// playfield.
pub proof fn lemma_advance_keeps_lock_step(t: TrackModel, lean: Direction, i: int)
    requires
        t.wf(),
        t.path.len() > 0,
        0 <= i < t.path.len(),
    ensures
        t.path.len() == t.platforms.len(),
        t.advanced(lean).path.len() == t.advanced(lean).platforms.len(),
        t.advanced(lean).path.len() == t.path.len(),
        in_bounds(t.advanced(lean).platforms[i].x),
{
    lemma_advanced_wf(t, lean);
}

} // verus!
