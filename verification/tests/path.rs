use uppy_up::geometry::{
    increment_loc, Direction, Location, LEFT_BOUND, RIGHT_BOUND, START_X, START_Y, X_INC, Y_INC,
};
use uppy_up::path::{gen_rand_dir, next_direction, next_direction_leaning, out_of_bounds};

#[test]
fn constants_of_the_playfield() {
    assert_eq!(X_INC, 70);
    assert_eq!(Y_INC, 40);
    assert_eq!(START_X, 0);
    assert_eq!(START_Y, -200);
    assert_eq!(RIGHT_BOUND, 350);
    assert_eq!(LEFT_BOUND, -350);
    assert!(RIGHT_BOUND >= X_INC);
}

#[test]
fn default_location_is_the_origin() {
    assert_eq!(Location::default(), Location { x: 0, y: -200 });
}

#[test]
fn default_direction_is_left() {
    assert_eq!(Direction::default(), Direction::Left);
}

#[test]
fn opposite_turns_around() {
    assert_eq!(Direction::Left.opposite(), Direction::Right);
    assert_eq!(Direction::Right.opposite(), Direction::Left);
}

#[test]
fn keys_to_direction() {
    assert_eq!(Direction::from_keys(false, false), None);
    assert_eq!(Direction::from_keys(true, false), Some(Direction::Left));
    assert_eq!(Direction::from_keys(false, true), Some(Direction::Right));
    assert_eq!(Direction::from_keys(true, true), Some(Direction::Right));
}

#[test]
fn coin_to_direction() {
    assert_eq!(Direction::from_coin(true), Direction::Right);
    assert_eq!(Direction::from_coin(false), Direction::Left);
}

#[test]
fn a_hop_moves_sideways_and_up() {
    let mut loc = Location { x: 0, y: -200 };
    increment_loc(&mut loc, &Direction::Left);
    assert_eq!(loc, Location { x: -70, y: -160 });
    increment_loc(&mut loc, &Direction::Right);
    assert_eq!(loc, Location { x: 0, y: -120 });
    increment_loc(&mut loc, &Direction::Right);
    assert_eq!(loc, Location { x: 70, y: -80 });
}

#[test]
fn right_edge_forces_left() {
    for lean in [Direction::Left, Direction::Right] {
        assert_eq!(next_direction_leaning(350, lean), Direction::Left);
        assert_eq!(next_direction_leaning(281, lean), Direction::Left);
    }
}

#[test]
fn left_edge_forces_right() {
    for lean in [Direction::Left, Direction::Right] {
        assert_eq!(next_direction_leaning(-350, lean), Direction::Right);
        assert_eq!(next_direction_leaning(-281, lean), Direction::Right);
    }
}

#[test]
fn away_from_the_edges_the_lean_decides() {
    for x in [-280, -210, -70, 0, 70, 140, 280] {
        assert_eq!(next_direction_leaning(x, Direction::Left), Direction::Left);
        assert_eq!(next_direction_leaning(x, Direction::Right), Direction::Right);
    }
}

#[test]
fn out_of_bounds_overrides_only_at_the_edges() {
    let mut dir = Direction::Right;
    out_of_bounds(&Location { x: 350, y: 0 }, &mut dir);
    assert_eq!(dir, Direction::Left);
    let mut dir = Direction::Left;
    out_of_bounds(&Location { x: -350, y: 40 }, &mut dir);
    assert_eq!(dir, Direction::Right);
    let mut dir = Direction::Right;
    out_of_bounds(&Location { x: 280, y: 0 }, &mut dir);
    assert_eq!(dir, Direction::Right);
    let mut dir = Direction::Left;
    out_of_bounds(&Location { x: -280, y: 0 }, &mut dir);
    assert_eq!(dir, Direction::Left);
}

#[test]
fn far_outside_the_field_the_way_back_is_forced() {
    assert_eq!(next_direction_leaning(i64::MAX, Direction::Right), Direction::Left);
    assert_eq!(next_direction_leaning(i64::MIN, Direction::Left), Direction::Right);
}

#[test]
fn random_direction_obeys_the_edges() {
    for _ in 0..200 {
        assert_eq!(next_direction(350), Direction::Left);
        assert_eq!(next_direction(-350), Direction::Right);
    }
}

#[test]
fn random_direction_takes_both_sides() {
    let mut left = 0;
    let mut right = 0;
    for _ in 0..400 {
        match gen_rand_dir() {
            Direction::Left => left += 1,
            Direction::Right => right += 1,
        }
    }
    assert!(left > 0);
    assert!(right > 0);
    let mut left = 0;
    let mut right = 0;
    for _ in 0..400 {
        match next_direction(0) {
            Direction::Left => left += 1,
            Direction::Right => right += 1,
        }
    }
    assert!(left > 0);
    assert!(right > 0);
}
