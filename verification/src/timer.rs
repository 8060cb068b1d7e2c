//! A periodic countdown timer over the monotonic clock.
//!
//! The clock itself is outside work: readings of `std::time::Instant` are
//! opaque here and two readings of the same timer may differ. What is
//! verified is the countdown decision — whether the milliseconds elapsed
//! since the timer was started have reached the configured duration — and
//! that polling never disturbs the configured duration. On firing, the timer
//! restarts itself, so it fires again one duration later: it is periodic.

use std::time::Duration;
use std::time::Instant;

use vstd::prelude::*;

verus! {

/// The monotonic clock's opaque reading type.
#[verifier::external_type_specification]
#[verifier::external_body]
pub struct ExInstant(Instant);

/// Relies on `std::time::Instant::now`: an opaque reading of the monotonic
/// clock, different at every call.
#[verifier::external_body]
fn instant_now() -> Instant {
    Instant::now()
}

/// Relies on `std::time::Instant::elapsed`: the time since `start`, which
/// depends on the moment of the call.
#[verifier::external_body]
fn instant_elapsed(start: &Instant) -> Duration {
    start.elapsed()
}

/// Relies on `core::time::Duration::as_millis`: the duration in whole
/// milliseconds, truncating the sub-millisecond part.
#[verifier::external_body]
fn duration_millis(d: &Duration) -> u128 {
    d.as_millis()
}

/// The countdown decision: have at least `duration_ms` milliseconds elapsed?
pub fn timer_expired(elapsed_ms: u128, duration_ms: u64) -> (r: bool)
    ensures
        r == (elapsed_ms >= duration_ms as u128),
{
    elapsed_ms >= duration_ms as u128
}

/// What one poll of the timer reports.
#[derive(Clone, Copy, Debug, PartialEq, Eq, Structural)]
pub enum TimerPoll {
    /// The configured duration has elapsed; the timer has restarted.
    Ready,
    /// The configured duration has not yet elapsed.
    Pending,
}

/// A periodic timer based on the monotonically nondecreasing system clock.
pub struct SysTimer {
    start: Instant,
    duration_ms: u64,
}

impl SysTimer {
    /// The configured duration in milliseconds.
    pub closed spec fn duration_spec(&self) -> u64 {
        self.duration_ms
    }

    /// A new timer. The duration starts at zero, so start the timer with the
    /// desired duration before polling it.
    pub fn new() -> (r: SysTimer)
        ensures
            r.duration_spec() == 0,
    {
        SysTimer { start: instant_now(), duration_ms: 0 }
    }

    /// Starts the countdown: the timer will read ready once `duration_ms`
    /// milliseconds have elapsed from this call.
    pub fn start(&mut self, duration_ms: u64)
        ensures
            final(self).duration_spec() == duration_ms,
    {
        self.start = instant_now();
        self.duration_ms = duration_ms;
    }

    /// Polls the countdown. Ready is reported once the configured duration
    /// has elapsed since the last start or the last ready poll; on ready the
    /// timer restarts, which keeps it periodic. Polling never changes the
    /// configured duration, and a zero duration reads ready on every poll,
    /// whatever the clock returned.
    pub fn wait(&mut self) -> (r: TimerPoll)
        ensures
            final(self).duration_spec() == old(self).duration_spec(),
            r is Pending ==> *final(self) == *old(self),
            old(self).duration_spec() == 0 ==> r is Ready,
    {
        let elapsed = instant_elapsed(&self.start);
        let ms = duration_millis(&elapsed);
        if timer_expired(ms, self.duration_ms) {
            self.start = instant_now();
            TimerPoll::Ready
        } else {
            TimerPoll::Pending
        }
    }
}

impl Default for SysTimer {
    /// A new timer with the duration at zero.
    fn default() -> (r: SysTimer)
        ensures
            r.duration_spec() == 0,
    {
        SysTimer::new()
    }
}

} // verus!
