use uppy_up::check_point::CheckPoint;
use uppy_up::countdown::{Countdown, CHECK_POINT_TIME};
use uppy_up::geometry::Location;

#[test]
fn budget_is_twenty_seconds() {
    assert_eq!(CHECK_POINT_TIME, 20_000);
}

#[test]
fn new_countdown_is_full() {
    let c = Countdown::new();
    assert_eq!(c.elapsed(), 0);
    assert_eq!(c.remaining(), 20_000);
    assert!(!c.expired());
}

#[test]
fn countdown_expires_after_its_budget() {
    let mut c = Countdown::new();
    c.reset();
    c.tick(19_900);
    assert!(!c.expired());
    assert_eq!(c.elapsed(), 19_900);
    assert_eq!(c.remaining(), 100);
    c.tick(200);
    assert!(c.expired());
    assert_eq!(c.elapsed(), 20_000);
    assert_eq!(c.remaining(), 0);
}

#[test]
fn countdown_expires_exactly_at_its_budget() {
    let mut c = Countdown::new();
    c.tick(19_999);
    assert!(!c.expired());
    assert_eq!(c.remaining(), 1);
    c.tick(1);
    assert!(c.expired());
}

#[test]
fn tick_accumulates() {
    let mut c = Countdown::new();
    c.tick(16);
    c.tick(17);
    c.tick(0);
    assert_eq!(c.elapsed(), 33);
    assert_eq!(c.remaining(), 19_967);
}

#[test]
fn expired_countdown_stays_expired() {
    let mut c = Countdown::new();
    c.tick(u32::MAX);
    assert!(c.expired());
    assert_eq!(c.elapsed(), 20_000);
    c.tick(5);
    assert!(c.expired());
    assert_eq!(c.elapsed(), 20_000);
    assert_eq!(c.remaining(), 0);
}

#[test]
fn reset_restores_the_budget() {
    let mut c = Countdown::new();
    c.tick(25_000);
    assert!(c.expired());
    c.reset();
    assert!(!c.expired());
    assert_eq!(c.elapsed(), 0);
    assert_eq!(c.remaining(), 20_000);
    c.tick(1_500);
    assert_eq!(c.elapsed(), 1_500);
}

#[test]
fn checkpoint_text_shows_whole_seconds_left() {
    let mut cp = CheckPoint::new(Location { x: 70, y: 600 });
    assert_eq!(cp.location, Location { x: 70, y: 600 });
    assert_eq!(cp.to_string(), "Time: 20");
    cp.timer.tick(499);
    assert_eq!(cp.to_string(), "Time: 20");
    cp.timer.tick(1);
    assert_eq!(cp.to_string(), "Time: 19");
    cp.timer.tick(12_000);
    assert_eq!(cp.to_string(), "Time: 7");
    cp.timer.tick(6_999);
    assert_eq!(cp.to_string(), "Time: 1");
    cp.timer.tick(1);
    assert_eq!(cp.to_string(), "Time: 0");
    cp.timer.tick(10_000);
    assert_eq!(cp.to_string(), "Time: 0");
}

#[test]
fn default_checkpoint_sits_at_the_origin() {
    let cp = CheckPoint::default();
    assert_eq!(cp.location, Location { x: 0, y: -200 });
    assert_eq!(cp.timer.elapsed(), 0);
    assert!(!cp.timer.expired());
}
