use arena_core::timer::{Timer, TimerMode, MICROS_PER_SECOND};

#[test]
fn fresh_timer_has_nothing_elapsed() {
    let timer = Timer::new(1_500_000, TimerMode::Repeating);
    assert_eq!(timer.duration, 1_500_000);
    assert_eq!(timer.elapsed, 0);
    assert_eq!(timer.mode, TimerMode::Repeating);
    assert!(!timer.finished());
    assert!(!timer.just_finished());
    assert_eq!(MICROS_PER_SECOND, 1_000_000);
}

#[test]
fn one_shot_timer_stops_at_its_duration() {
    let mut timer = Timer::new(1_000_000, TimerMode::Once);
    assert!(!timer.tick(400_000));
    assert_eq!(timer.elapsed, 400_000);
    assert!(timer.tick(700_000));
    assert!(timer.finished());
    assert_eq!(timer.elapsed, 1_000_000);
    assert!(!timer.tick(5));
    assert!(timer.finished());
    assert!(!timer.just_finished());
    assert_eq!(timer.elapsed, 1_000_000);
}

#[test]
fn one_shot_timer_fires_exactly_at_its_duration() {
    let mut timer = Timer::new(1_000_000, TimerMode::Once);
    assert!(!timer.tick(999_999));
    assert!(timer.tick(1));
    assert!(timer.finished());
}

#[test]
fn repeating_timer_wraps_and_keeps_the_overshoot() {
    let mut timer = Timer::new(1_000_000, TimerMode::Repeating);
    assert!(timer.tick(1_100_000));
    assert!(timer.finished());
    assert_eq!(timer.elapsed, 100_000);
    assert!(!timer.tick(800_000));
    assert!(!timer.finished());
    assert_eq!(timer.elapsed, 900_000);
    assert!(timer.tick(600_000));
    assert_eq!(timer.elapsed, 500_000);
}

#[test]
fn repeating_timer_counts_several_periods_as_one_firing() {
    let mut timer = Timer::new(1_000_000, TimerMode::Repeating);
    assert!(timer.tick(3_250_000));
    assert_eq!(timer.elapsed, 250_000);
}

#[test]
fn timer_of_no_duration_fires_on_every_tick() {
    let mut repeating = Timer::new(0, TimerMode::Repeating);
    assert!(repeating.tick(0));
    assert!(repeating.tick(17));
    assert_eq!(repeating.elapsed, 0);
    let mut once = Timer::new(0, TimerMode::Once);
    assert!(once.tick(0));
    assert!(!once.tick(0));
    assert!(once.finished());
}

#[test]
fn timer_takes_the_longest_tick() {
    let mut timer = Timer::new(u32::MAX, TimerMode::Once);
    assert!(!timer.tick(u32::MAX - 1));
    assert!(timer.tick(u32::MAX));
    assert_eq!(timer.elapsed, u32::MAX);
    let mut repeating = Timer::new(u32::MAX, TimerMode::Repeating);
    assert!(!repeating.tick(u32::MAX - 1));
    assert!(repeating.tick(u32::MAX));
    assert_eq!(repeating.elapsed, u32::MAX - 1);
}

#[test]
fn reset_winds_the_timer_back() {
    let mut timer = Timer::new(1_000_000, TimerMode::Once);
    timer.tick(1_500_000);
    timer.reset();
    assert!(!timer.finished());
    assert!(!timer.just_finished());
    assert_eq!(timer.elapsed, 0);
    assert_eq!(timer.duration, 1_000_000);
    assert_eq!(timer, Timer::new(1_000_000, TimerMode::Once));
}
