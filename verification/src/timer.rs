//! The repeating spawn timer, kept as plain nanosecond counts and advanced by
//! the engine's own timer.

use bevy::time::{Timer, TimerMode};
use std::time::Duration;
use vstd::prelude::*;

verus! {

/// Whether a repeating timer that has accumulated `elapsed` fires when it is
/// advanced by `delta`.
pub open spec fn fires(elapsed: nat, period: nat, delta: nat) -> bool {
    elapsed + delta >= period
}

/// The time a repeating timer holds after being advanced by `delta`: the
/// accumulated time, wrapped around the period once the period is reached.
pub open spec fn advanced(elapsed: nat, period: nat, delta: nat) -> nat {
    if !fires(elapsed, period, delta) {
        elapsed + delta
    } else if period == 0 {
        0
    } else {
        (elapsed + delta) % period
    }
}

/// Advances a repeating `bevy::time::Timer` by `delta_nanos`: the timer is
/// made with `Timer::new` at the given period, set to `elapsed_nanos` with
/// `Timer::set_elapsed` and advanced with `Timer::tick`; `Timer::elapsed` and
/// `Timer::finished` are read back.
///
/// Trusted, not proved: `Timer::tick` on a running repeating timer adds the
/// delta to the elapsed time, reports finished exactly when the sum has
/// reached the period, and in that case keeps the remainder of the sum by the
/// period (zero for a zero period). All three counts are below 2^64
/// nanoseconds, so neither the sum nor what is read back leaves its type.
#[verifier::external_body]
fn tick_repeating(period_nanos: u64, elapsed_nanos: u64, delta_nanos: u64) -> (r: (u64, bool))
    ensures
        r.1 == fires(elapsed_nanos as nat, period_nanos as nat, delta_nanos as nat),
        r.0 == advanced(elapsed_nanos as nat, period_nanos as nat, delta_nanos as nat),
{
    let mut timer = Timer::new(Duration::from_nanos(period_nanos), TimerMode::Repeating);
    timer.set_elapsed(Duration::from_nanos(elapsed_nanos));
    timer.tick(Duration::from_nanos(delta_nanos));
    (timer.elapsed().as_nanos() as u64, timer.finished())
}

/// A repeating interval timer: elapsed time and period in nanoseconds, and
/// whether the last tick reached the period.
#[derive(Clone, Copy, Debug)]
pub struct SpawnTimer {
    elapsed_nanos: u64,
    period_nanos: u64,
    finished: bool,
}

impl SpawnTimer {
    /// The accumulated time, in nanoseconds.
    pub closed spec fn elapsed(&self) -> nat {
        self.elapsed_nanos as nat
    }

    /// The period, in nanoseconds.
    pub closed spec fn period(&self) -> nat {
        self.period_nanos as nat
    }

    /// Whether the last tick reached the period.
    pub closed spec fn is_finished(&self) -> bool {
        self.finished
    }

    /// A timer of the given period with nothing elapsed.
    pub fn new(period_nanos: u64) -> (timer: SpawnTimer)
        ensures
            timer.elapsed() == 0,
            timer.period() == period_nanos,
            !timer.is_finished(),
    {
        SpawnTimer { elapsed_nanos: 0, period_nanos, finished: false }
    }

    /// Advances the timer by `delta_nanos`.
    pub fn tick(&mut self, delta_nanos: u64)
        ensures
            final(self).period() == old(self).period(),
            final(self).is_finished() == fires(old(self).elapsed(), old(self).period(), delta_nanos as nat),
            final(self).elapsed() == advanced(old(self).elapsed(), old(self).period(), delta_nanos as nat),
    {
        let (elapsed, finished) = tick_repeating(self.period_nanos, self.elapsed_nanos, delta_nanos);
        self.elapsed_nanos = elapsed;
        self.finished = finished;
    }

    /// Whether the last tick reached the period.
    pub fn finished(&self) -> (r: bool)
        ensures
            r == self.is_finished(),
    {
        self.finished
    }

    /// Clears the accumulated time and the finished state; the period stays.
    pub fn reset(&mut self)
        ensures
            final(self).elapsed() == 0,
            final(self).period() == old(self).period(),
            !final(self).is_finished(),
    {
        self.elapsed_nanos = 0;
        self.finished = false;
    }

    /// The accumulated time, in nanoseconds.
    pub fn elapsed_nanos(&self) -> (r: u64)
        ensures
            r == self.elapsed(),
    {
        self.elapsed_nanos
    }

    /// The period, in nanoseconds.
    pub fn period_nanos(&self) -> (r: u64)
        ensures
            r == self.period(),
    {
        self.period_nanos
    }
}

} // verus!
