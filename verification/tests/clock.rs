use uppy_up::animation::next_sprite_index;
use uppy_up::clock::{FrameClock, NANOS_PER_MILLI};

#[test]
fn a_millisecond_is_a_million_nanoseconds() {
    assert_eq!(NANOS_PER_MILLI, 1_000_000);
}

#[test]
fn whole_milliseconds_pass_through() {
    let mut clock = FrameClock::new();
    assert_eq!(clock.advance(0), 0);
    assert_eq!(clock.advance(16_000_000), 16);
    assert_eq!(clock.advance(1_000_000), 1);
}

#[test]
fn the_rest_is_carried_over() {
    let mut clock = FrameClock::new();
    assert_eq!(clock.advance(16_666_667), 16);
    assert_eq!(clock.advance(16_666_667), 17);
    assert_eq!(clock.advance(16_666_667), 17);
    assert_eq!(clock.advance(16_666_667), 16);
    assert_eq!(clock.advance(999_999), 1);
    assert_eq!(clock.advance(333_333), 1);
    assert_eq!(clock.advance(0), 0);
}

#[test]
fn a_second_of_frames_is_a_thousand_milliseconds() {
    let mut clock = FrameClock::default();
    let mut total: u64 = 0;
    for _ in 0..60 {
        total += clock.advance(16_666_667) as u64;
    }
    assert_eq!(total, 1_000);
}

#[test]
fn a_frame_too_long_saturates() {
    let mut clock = FrameClock::new();
    assert_eq!(clock.advance(999_999), 0);
    assert_eq!(clock.advance(u64::MAX), u32::MAX);
    assert_eq!(clock.advance(999_999), 0);
    assert_eq!(clock.advance(1), 1);
    let mut clock = FrameClock::new();
    assert_eq!(clock.advance(4_294_967_295_999_999), u32::MAX);
    assert_eq!(clock.advance(1), 1);
    let mut clock = FrameClock::new();
    assert_eq!(clock.advance(4_294_967_296_000_000), u32::MAX);
    assert_eq!(clock.advance(999_999), 0);
}

#[test]
fn frames_follow_each_other_and_start_over() {
    assert_eq!(next_sprite_index(0, 0, 7), 1);
    assert_eq!(next_sprite_index(6, 0, 7), 7);
    assert_eq!(next_sprite_index(7, 0, 7), 0);
    assert_eq!(next_sprite_index(1, 0, 1), 0);
    assert_eq!(next_sprite_index(3, 2, 3), 2);
    assert_eq!(next_sprite_index(9, 0, 7), 10);
    assert_eq!(next_sprite_index(usize::MAX, 4, usize::MAX), 4);
}
