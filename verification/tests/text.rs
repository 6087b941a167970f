use uppy_up::decimal::{push_decimal, to_decimal};
use uppy_up::score::Score;

#[test]
fn decimal_of_small_numbers() {
    assert_eq!(to_decimal(0), "0");
    assert_eq!(to_decimal(7), "7");
    assert_eq!(to_decimal(10), "10");
    assert_eq!(to_decimal(42), "42");
    assert_eq!(to_decimal(100), "100");
    assert_eq!(to_decimal(1_234_567_890), "1234567890");
}

#[test]
fn decimal_of_negative_numbers() {
    assert_eq!(to_decimal(-1), "-1");
    assert_eq!(to_decimal(-42), "-42");
    assert_eq!(to_decimal(-1_000), "-1000");
}

#[test]
fn decimal_of_the_extremes() {
    assert_eq!(to_decimal(i64::MAX), "9223372036854775807");
    assert_eq!(to_decimal(i64::MIN), "-9223372036854775808");
}

#[test]
fn decimal_agrees_with_the_standard_formatting() {
    let mut v: i64 = -5_000;
    while v <= 5_000 {
        assert_eq!(to_decimal(v), format!("{}", v));
        v += 1;
    }
}

#[test]
fn push_decimal_appends() {
    let mut s = String::from("n = ");
    push_decimal(&mut s, 305);
    assert_eq!(s, "n = 305");
    push_decimal(&mut s, -2);
    assert_eq!(s, "n = 305-2");
}

#[test]
fn default_score_is_zero() {
    let s = Score::default();
    assert_eq!(s.text, "Score: ");
    assert_eq!(s.value, 0);
    assert_eq!(s.value(), 0);
    assert_eq!(s.to_string(), "Score: 0");
}

#[test]
fn score_increments_by_one() {
    let mut s = Score::default();
    s.increment();
    assert_eq!(s.value(), 1);
    s.increment();
    s.increment();
    assert_eq!(s.value(), 3);
    assert_eq!(s.to_string(), "Score: 3");
    assert_eq!(s.text, "Score: ");
}

#[test]
fn score_reset_keeps_the_label() {
    let mut s = Score::default();
    s.init_high_score();
    s.absorb(12);
    s.reset();
    assert_eq!(s.value(), 0);
    assert_eq!(s.to_string(), "High Score: 0");
}

#[test]
fn high_score_label() {
    let mut s = Score::default();
    s.init_high_score();
    assert_eq!(s.text, "High Score: ");
    assert_eq!(s.value(), 0);
    s.absorb(41);
    assert_eq!(s.to_string(), "High Score: 41");
}

#[test]
fn negative_score_is_written_with_a_sign() {
    let s = Score { text: String::from("Score: "), value: -3 };
    assert_eq!(s.to_string(), "Score: -3");
}

#[test]
fn absorb_takes_the_larger() {
    let mut h = Score::default();
    h.absorb(5);
    assert_eq!(h.value(), 5);
    h.absorb(3);
    assert_eq!(h.value(), 5);
    h.absorb(5);
    assert_eq!(h.value(), 5);
    h.absorb(6);
    assert_eq!(h.value(), 6);
    h.absorb(-1);
    assert_eq!(h.value(), 6);
}

#[test]
fn absorb_twice_is_absorb_once() {
    let mut s: i32 = -3;
    while s <= 12 {
        let mut once = Score { text: String::from("High Score: "), value: 4 };
        let mut twice = Score { text: String::from("High Score: "), value: 4 };
        once.absorb(s);
        twice.absorb(s);
        twice.absorb(s);
        assert_eq!(once.value(), twice.value());
        assert_eq!(once.text, twice.text);
        s += 1;
    }
}
