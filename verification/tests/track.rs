use uppy_up::geometry::{Direction, Location};
use uppy_up::track::{EmptyTrackError, PlatformTrack};

use Direction::{Left, Right};

fn platforms_of(track: &PlatformTrack) -> Vec<Location> {
    let mut all = Vec::new();
    let mut i = 0;
    while let Some(loc) = track.platform(i) {
        all.push(loc);
        i += 1;
    }
    all
}

#[test]
fn new_track_is_empty() {
    let track = PlatformTrack::new();
    assert_eq!(track.len(), 0);
    assert!(track.is_empty());
    assert_eq!(track.top_location(), Location { x: 0, y: -200 });
    assert_eq!(track.peek_expected(), Err(EmptyTrackError));
    assert_eq!(track.peek_location(), Err(EmptyTrackError));
    assert_eq!(track.platform(0), None);
}

#[test]
fn default_track_is_empty() {
    let track = PlatformTrack::default();
    assert!(track.is_empty());
    assert_eq!(track.top_location(), Location { x: 0, y: -200 });
}

#[test]
fn extend_with_follows_the_lean() {
    let mut track = PlatformTrack::new();
    track.extend_with(Right);
    assert_eq!(track.len(), 1);
    assert_eq!(track.peek_expected(), Ok(Right));
    assert_eq!(track.peek_location(), Ok(Location { x: 70, y: -160 }));
    assert_eq!(track.top_location(), Location { x: 70, y: -160 });
    track.extend_with(Left);
    assert_eq!(track.len(), 2);
    assert_eq!(track.peek_expected(), Ok(Right));
    assert_eq!(track.platform(1), Some(Location { x: 0, y: -120 }));
    assert_eq!(track.top_location(), Location { x: 0, y: -120 });
}

#[test]
fn seed_with_generates_one_platform_per_draw() {
    let mut track = PlatformTrack::new();
    track.seed_with(&vec![Left, Left, Right, Left]);
    assert_eq!(track.len(), 4);
    assert_eq!(
        platforms_of(&track),
        vec![
            Location { x: -70, y: -160 },
            Location { x: -140, y: -120 },
            Location { x: -70, y: -80 },
            Location { x: -140, y: -40 },
        ]
    );
    assert_eq!(track.peek_expected(), Ok(Left));
    assert_eq!(track.top_location(), Location { x: -140, y: -40 });
}

#[test]
fn seed_with_nothing_changes_nothing() {
    let mut track = PlatformTrack::new();
    track.seed_with(&Vec::new());
    assert!(track.is_empty());
    track.seed(0);
    assert!(track.is_empty());
    assert_eq!(track.top_location(), Location { x: 0, y: -200 });
}

#[test]
fn the_right_edge_turns_the_path_back() {
    let mut track = PlatformTrack::new();
    track.seed_with(&vec![Right; 8]);
    let xs: Vec<i64> = platforms_of(&track).iter().map(|p| p.x).collect();
    assert_eq!(xs, vec![70, 140, 210, 280, 350, 280, 350, 280]);
    let ys: Vec<i64> = platforms_of(&track).iter().map(|p| p.y).collect();
    assert_eq!(ys, vec![-160, -120, -80, -40, 0, 40, 80, 120]);
}

#[test]
fn the_left_edge_turns_the_path_back() {
    let mut track = PlatformTrack::new();
    track.seed_with(&vec![Left; 7]);
    let xs: Vec<i64> = platforms_of(&track).iter().map(|p| p.x).collect();
    assert_eq!(xs, vec![-70, -140, -210, -280, -350, -280, -350]);
}

#[test]
fn advance_with_takes_the_front_and_adds_at_the_back() {
    let mut track = PlatformTrack::new();
    track.seed_with(&vec![Right, Left, Left]);
    assert_eq!(track.advance_with(Right), Ok(()));
    assert_eq!(track.len(), 3);
    assert_eq!(
        platforms_of(&track),
        vec![
            Location { x: 0, y: -120 },
            Location { x: -70, y: -80 },
            Location { x: 0, y: -40 },
        ]
    );
    assert_eq!(track.peek_expected(), Ok(Left));
    assert_eq!(track.top_location(), Location { x: 0, y: -40 });
}

#[test]
fn advance_on_a_single_platform() {
    let mut track = PlatformTrack::new();
    track.extend_with(Left);
    assert_eq!(track.advance_with(Left), Ok(()));
    assert_eq!(track.len(), 1);
    assert_eq!(track.peek_expected(), Ok(Left));
    assert_eq!(track.peek_location(), Ok(Location { x: -140, y: -120 }));
}

#[test]
fn advance_on_an_empty_track_fails() {
    let mut track = PlatformTrack::new();
    assert_eq!(track.advance_with(Left), Err(EmptyTrackError));
    assert_eq!(track.advance_one(), Err(EmptyTrackError));
    assert!(track.is_empty());
    assert_eq!(track.top_location(), Location { x: 0, y: -200 });
}

#[test]
fn random_seed_stays_on_the_playfield() {
    for _ in 0..20 {
        let mut track = PlatformTrack::new();
        track.seed(300);
        assert_eq!(track.len(), 300);
        let all = platforms_of(&track);
        let mut prev = Location { x: 0, y: -200 };
        for p in &all {
            assert!(-350 <= p.x && p.x <= 350);
            assert_eq!((p.x - prev.x).abs(), 70);
            assert_eq!(p.y, prev.y + 40);
            prev = *p;
        }
        assert_eq!(track.top_location(), *all.last().unwrap());
    }
}

#[test]
fn random_advance_keeps_the_window() {
    let mut track = PlatformTrack::new();
    track.seed(20);
    for k in 0..500 {
        let before = platforms_of(&track);
        assert_eq!(track.advance_one(), Ok(()));
        let after = platforms_of(&track);
        assert_eq!(track.len(), 20);
        assert_eq!(after.len(), 20);
        assert_eq!(&after[..19], &before[1..]);
        let top = track.top_location();
        assert_eq!(after[19], top);
        assert_eq!(top.y, -200 + 40 * (21 + k));
        assert_eq!((top.x - before[19].x).abs(), 70);
        assert!(-350 <= top.x && top.x <= 350);
        let expected = track.peek_expected().unwrap();
        let dx = after[0].x - before[0].x;
        assert_eq!(dx, if expected == Right { 70 } else { -70 });
    }
}

#[test]
fn extend_one_adds_a_single_platform() {
    let mut track = PlatformTrack::new();
    track.extend_one();
    assert_eq!(track.len(), 1);
    let p = track.peek_location().unwrap();
    match track.peek_expected().unwrap() {
        Left => assert_eq!(p, Location { x: -70, y: -160 }),
        Right => assert_eq!(p, Location { x: 70, y: -160 }),
    }
}

#[test]
fn clear_empties_the_track() {
    let mut track = PlatformTrack::new();
    track.seed(5);
    track.clear();
    assert!(track.is_empty());
    assert_eq!(track.top_location(), Location { x: 0, y: -200 });
    assert_eq!(track.peek_expected(), Err(EmptyTrackError));
}
