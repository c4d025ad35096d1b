use splash::frac::UnitFrac;
use splash::timer::Timer;

#[test]
fn timer_new_starts_at_zero() {
    let t = Timer::new(5);
    assert_eq!(t.duration, 5);
    assert_eq!(t.elapsed, 0);
    assert!(!t.is_finished());
}

#[test]
fn timer_zero_duration_finished_immediately() {
    let t = Timer::new(0);
    assert!(t.is_finished());
    assert_eq!(t.fraction_elapsed(), UnitFrac { num: 1, den: 1 });
    assert_eq!(t.fraction_remaining(), UnitFrac { num: 0, den: 1 });
}

#[test]
fn timer_finishes_with_exact_remainder() {
    // Advancing by exactly the missing duration finishes the timer and
    // leaves no fraction remaining.
    let mut t = Timer::new(5);
    t.advance(2);
    assert!(!t.is_finished());
    t.advance(3);
    assert!(t.is_finished());
    assert_eq!(t.elapsed, 5);
    assert_eq!(t.fraction_remaining(), UnitFrac { num: 0, den: 5 });
    assert_eq!(t.fraction_elapsed(), UnitFrac { num: 5, den: 5 });
}

#[test]
fn timer_saturates_at_duration() {
    let mut t = Timer::new(10);
    t.advance(7);
    t.advance(u64::MAX);
    assert_eq!(t.elapsed, 10);
    assert!(t.is_finished());
}

#[test]
fn timer_fraction_elapsed_exact() {
    let mut t = Timer::new(4);
    t.advance(1);
    assert_eq!(t.fraction_elapsed(), UnitFrac { num: 1, den: 4 });
    assert_eq!(t.fraction_remaining(), UnitFrac { num: 3, den: 4 });
}
