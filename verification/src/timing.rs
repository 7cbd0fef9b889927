//! Fixed-timestep game clock. Time is kept in whole nanoseconds: real time
//! flows into an accumulator (capped per tick so a lag spike cannot trigger a
//! "death spiral"), and each fixed update step consumes one target delta.
use vstd::prelude::*;
use std::time::{Duration, Instant};
use vstd::arithmetic::div_mod::{lemma_fundamental_div_mod, lemma_fundamental_div_mod_converse, lemma_mod_pos_bound};

verus! {

#[verifier::external_type_specification]
#[verifier::external_body]
pub struct ExInstant(Instant);

/// The longest real time one tick may add to the accumulator: 250 ms.
pub const MAX_TICK_NANOS: u64 = 250_000_000;

/// Reads the monotonic clock (`Instant::now`). Nothing is stated of the value:
/// it is the current time.
#[verifier::external_body]
fn instant_now() -> Instant {
    Instant::now()
}

/// Time elapsed since `start` (`Instant::elapsed`). Nothing is stated of the
/// value: it depends on the current time.
#[verifier::external_body]
fn instant_elapsed(start: &Instant) -> Duration {
    start.elapsed()
}

/// Length of a duration in whole nanoseconds (`Duration::as_nanos`). Nothing is
/// stated of the value: the duration is opaque here, and so is its length.
#[verifier::external_body]
fn duration_nanos(d: &Duration) -> u128 {
    d.as_nanos()
}

/// Abstract state of the clock.
pub struct ClockView {
    /// Length of one fixed update step.
    pub target: u64,
    /// Clock reading (nanoseconds since the clock was made) at the last tick.
    pub last_tick: u64,
    /// Real time not yet consumed by update steps.
    pub accumulator: u64,
}

/// Real time a tick at clock reading `now` credits: the time since the last
/// tick (none if the reading went backwards), capped at 250 ms.
pub open spec fn tick_credit(last_tick: u64, now: u64) -> int {
    let elapsed: int = if now >= last_tick { now - last_tick } else { 0 };
    if elapsed > MAX_TICK_NANOS { MAX_TICK_NANOS as int } else { elapsed }
}

/// The state after a tick at clock reading `now`.
pub open spec fn ticked(c: ClockView, now: u64) -> ClockView {
    let sum = c.accumulator + tick_credit(c.last_tick, now);
    ClockView {
        target: c.target,
        last_tick: now,
        accumulator: if sum > u64::MAX { u64::MAX } else { sum as u64 },
    }
}

/// Fixed-timestep game clock.
pub struct GameClock {
    start: Instant,
    target_delta: u64,
    last_tick: u64,
    accumulator: u64,
}

impl View for GameClock {
    type V = ClockView;

    closed spec fn view(&self) -> ClockView {
        ClockView { target: self.target_delta, last_tick: self.last_tick, accumulator: self.accumulator }
    }
}

impl GameClock {
    /// A clock whose fixed update step lasts `target_delta_nanos`
    /// (1 / target fps), started now with nothing accumulated.
    pub fn new(target_delta_nanos: u64) -> (c: Self)
        ensures
            c@.target == target_delta_nanos,
            c@.last_tick == 0,
            c@.accumulator == 0,
    {
        GameClock { start: instant_now(), target_delta: target_delta_nanos, last_tick: 0, accumulator: 0 }
    }

    /// The instant the clock was made.
    pub closed spec fn start_instant(&self) -> Instant {
        self.start
    }

    /// The instant the clock was made.
    pub fn start(&self) -> (s: &Instant)
        ensures
            *s == self.start_instant(),
    {
        &self.start
    }

    /// Length of one fixed update step in nanoseconds.
    pub fn target_delta_nanos(&self) -> (t: u64)
        ensures
            t == self@.target,
    {
        self.target_delta
    }

    /// Real time accumulated and not yet consumed, in nanoseconds.
    pub fn accumulator_nanos(&self) -> (a: u64)
        ensures
            a == self@.accumulator,
    {
        self.accumulator
    }

    /// Clock reading of the last tick, in nanoseconds since the clock was made.
    pub fn last_tick_nanos(&self) -> (t: u64)
        ensures
            t == self@.last_tick,
    {
        self.last_tick
    }

    /// Credit the real time up to clock reading `now_nanos` (nanoseconds since
    /// the clock was made), capped at 250 ms.
    pub fn advance_to(&mut self, now_nanos: u64)
        ensures
            final(self)@ == ticked(old(self)@, now_nanos),
            final(self).start_instant() == old(self).start_instant(),
    {
        let elapsed: u64 = if now_nanos >= self.last_tick { now_nanos - self.last_tick } else { 0 };
        let capped: u64 = if elapsed > MAX_TICK_NANOS { MAX_TICK_NANOS } else { elapsed };
        self.last_tick = now_nanos;
        self.accumulator = self.accumulator.saturating_add(capped);
    }

    /// Advance the clock by the real time elapsed since the last tick and
    /// return the fixed step length in nanoseconds.
    pub fn tick(&mut self) -> (dt: u64)
        ensures
            dt == old(self)@.target,
            exists|now: u64| final(self)@ == ticked(old(self)@, now),
            final(self).start_instant() == old(self).start_instant(),
    {
        let elapsed = instant_elapsed(&self.start);
        let n = duration_nanos(&elapsed);
        let now: u64 = if n > u64::MAX as u128 { u64::MAX } else { n as u64 };
        self.advance_to(now);
        assert(self@ == ticked(old(self)@, now));
        self.target_delta
    }

    /// When a whole step is accumulated, consume it and return `true`;
    /// otherwise leave the clock as it is and return `false`.
    pub fn should_update(&mut self) -> (r: bool)
        ensures
            r == (old(self)@.accumulator >= old(self)@.target),
            final(self)@.target == old(self)@.target,
            final(self)@.last_tick == old(self)@.last_tick,
            r ==> final(self)@.accumulator == old(self)@.accumulator - old(self)@.target,
            !r ==> final(self)@.accumulator == old(self)@.accumulator,
            !r ==> final(self)@.accumulator < final(self)@.target,
            final(self).start_instant() == old(self).start_instant(),
    {
        if self.accumulator >= self.target_delta {
            self.accumulator = self.accumulator - self.target_delta;
            true
        } else {
            false
        }
    }
}

/// Number of fixed steps a `while clock.should_update()` loop runs from
/// accumulator `acc` with step `target`.
pub open spec fn drain_count(acc: nat, target: nat) -> nat
    decreases acc,
{
    if target > 0 && acc >= target {
        1 + drain_count((acc - target) as nat, target)
    } else {
        0
    }
}

/// Accumulator left after such a loop.
pub open spec fn drain_rest(acc: nat, target: nat) -> nat
    decreases acc,
{
    if target > 0 && acc >= target {
        drain_rest((acc - target) as nat, target)
    } else {
        acc
    }
}

/// Draining the accumulator with fixed steps runs exactly `acc / target`
/// update steps and leaves `acc % target`, less than one step, for
/// interpolation: the fractional factor stays in [0, 1).
pub proof fn lemma_drain_is_division(acc: nat, target: nat)
    requires
        target > 0,
    ensures
        drain_count(acc, target) == acc / target,
        drain_rest(acc, target) == acc % target,
        drain_rest(acc, target) < target,
    decreases acc,
{
    if acc >= target {
        lemma_drain_is_division((acc - target) as nat, target);
        let q = (acc - target) / (target as int);
        let r = (acc - target) % (target as int);
        lemma_fundamental_div_mod(acc - target, target as int);
        lemma_mod_pos_bound(acc - target, target as int);
        assert((q + 1) * (target as int) == target * q + target) by (nonlinear_arith);
        lemma_fundamental_div_mod_converse(acc as int, target as int, q + 1, r);
    } else {
        lemma_fundamental_div_mod_converse(acc as int, target as int, 0, acc as int);
    }
}

/// One tick never takes real time away and never credits more than 250 ms,
/// whatever the clock reads.
pub proof fn lemma_tick_credit_bounded(c: ClockView, now: u64)
    ensures
        c.accumulator <= ticked(c, now).accumulator <= c.accumulator + MAX_TICK_NANOS,
        ticked(c, now).target == c.target,
{
}

/// Ticks that land on the same reading credit nothing the second time.
pub proof fn lemma_tick_idempotent_reading(c: ClockView, now: u64)
    ensures
        ticked(ticked(c, now), now).accumulator == ticked(c, now).accumulator,
{
}

} // verus!
