use retro_arcade::timing::{GameClock, MAX_TICK_NANOS};

const STEP: u64 = 16_666_667;

#[test]
fn new_clock_is_empty() {
    let c = GameClock::new(STEP);
    assert_eq!(c.target_delta_nanos(), STEP);
    assert_eq!(c.accumulator_nanos(), 0);
    assert_eq!(c.last_tick_nanos(), 0);
}

#[test]
fn advance_accumulates_elapsed_time() {
    let mut c = GameClock::new(STEP);
    c.advance_to(10_000_000);
    assert_eq!(c.accumulator_nanos(), 10_000_000);
    c.advance_to(40_000_000);
    assert_eq!(c.accumulator_nanos(), 40_000_000);
    assert_eq!(c.last_tick_nanos(), 40_000_000);
}

#[test]
fn draining_runs_whole_steps_only() {
    let mut c = GameClock::new(STEP);
    c.advance_to(40_000_000);
    let mut steps = 0;
    while c.should_update() {
        steps += 1;
    }
    assert_eq!(steps, 2);
    assert_eq!(c.accumulator_nanos(), 40_000_000 - 2 * STEP);
}

#[test]
fn lag_spike_is_capped() {
    let mut c = GameClock::new(STEP);
    c.advance_to(1_000_000_000);
    assert_eq!(c.accumulator_nanos(), MAX_TICK_NANOS);
}

#[test]
fn backwards_reading_adds_nothing() {
    let mut c = GameClock::new(STEP);
    c.advance_to(5_000_000);
    c.advance_to(1_000_000);
    assert_eq!(c.accumulator_nanos(), 5_000_000);
    assert_eq!(c.last_tick_nanos(), 1_000_000);
}

#[test]
fn same_reading_twice_credits_once() {
    let mut c = GameClock::new(STEP);
    c.advance_to(7_000_000);
    c.advance_to(7_000_000);
    assert_eq!(c.accumulator_nanos(), 7_000_000);
}

#[test]
fn tick_returns_the_step() {
    let mut c = GameClock::new(STEP);
    assert_eq!(c.tick(), STEP);
    assert!(c.accumulator_nanos() <= MAX_TICK_NANOS);
}
