//! Instants and deadlines on a steady clock.
//!
//! An instant is a number of whole milliseconds on a clock that never jumps.
//! A [`Deadline`] remembers when a wait began and how long it may last, and
//! answers at every later instant how much of it is left.

use vstd::prelude::*;

verus! {

/// A bounded wait: it began at `start` and may last `timeout` milliseconds.
///
/// The time left is worked out anew from the current instant each time it is
/// asked for, so that several short waits never add up to more than `timeout`.
#[derive(Clone, Copy, Debug, PartialEq, Eq, Structural)]
pub struct Deadline {
    pub start: u64,
    pub timeout: u64,
}

impl Deadline {
    /// The instant at which the wait is over.
    pub open spec fn end(&self) -> int {
        self.start + self.timeout
    }

    /// Milliseconds still to wait at instant `now`: the distance to the end,
    /// but never more than `timeout` and never less than zero.
    pub open spec fn remaining_at(&self, now: u64) -> int {
        if now <= self.start {
            self.timeout as int
        } else if now < self.end() {
            self.end() - now
        } else {
            0
        }
    }

    /// Whether the wait is over at instant `now`.
    pub open spec fn expired_at(&self, now: u64) -> bool {
        self.remaining_at(now) == 0
    }

    /// A wait of `timeout` milliseconds that begins at `start`.
    pub fn new(start: u64, timeout: u64) -> (deadline: Deadline)
        ensures
            deadline.start == start,
            deadline.timeout == timeout,
    {
        Deadline { start, timeout }
    }

    /// Milliseconds still to wait at instant `now`.
    pub fn remaining(&self, now: u64) -> (left: u64)
        ensures
            left == self.remaining_at(now),
    {
        if now <= self.start {
            self.timeout
        } else {
            let elapsed: u64 = now - self.start;
            if elapsed < self.timeout {
                self.timeout - elapsed
            } else {
                0
            }
        }
    }

    /// Whether the wait is over at instant `now`.
    pub fn expired(&self, now: u64) -> (over: bool)
        ensures
            over == self.expired_at(now),
    {
        self.remaining(now) == 0
    }
}

/// The instant `delay` milliseconds after `now`, held at the largest instant
/// there is where the sum would pass it.
pub open spec fn instant_after(now: u64, delay: u64) -> u64 {
    if now + delay > u64::MAX {
        u64::MAX
    } else {
        (now + delay) as u64
    }
}

/// Computes [`instant_after`].
pub fn add_delay(now: u64, delay: u64) -> (at: u64)
    ensures
        at == instant_after(now, delay),
{
    now.saturating_add(delay)
}

#[verifier::external_type_specification]
#[verifier::external_body]
pub struct ExSteadyTime(time::SteadyTime);

#[verifier::external_type_specification]
#[verifier::external_body]
pub struct ExDuration(time::Duration);

/// `time::SteadyTime::now`: a reading of the machine's steady clock. Nothing
/// is claimed of the reading.
#[verifier::external_body]
fn steady_now() -> (reading: time::SteadyTime) {
    time::SteadyTime::now()
}

/// `SteadyTime - SteadyTime`: the time from one reading of the clock to
/// another. Nothing is claimed of the span: it is negative where `later` was
/// in fact read first. Both arguments are readings of one clock, so the span
/// is far inside the range of a `Duration`.
#[verifier::external_body]
fn steady_span(later: &time::SteadyTime, earlier: &time::SteadyTime) -> (span: time::Duration) {
    *later - *earlier
}

/// `time::Duration::num_milliseconds`: the whole milliseconds in a span.
/// Nothing is claimed of the number.
#[verifier::external_body]
fn whole_millis(span: &time::Duration) -> (millis: i64) {
    span.num_milliseconds()
}

/// A steady clock that counts milliseconds from the moment it was made.
pub struct SteadyClock {
    origin: time::SteadyTime,
}

impl SteadyClock {
    /// Starts a clock at the present moment.
    pub fn new() -> (clock: SteadyClock) {
        SteadyClock { origin: steady_now() }
    }

    /// Turns a signed count of milliseconds into an instant: a negative count
    /// is instant zero.
    pub open spec fn instant_of(millis: i64) -> u64 {
        if millis < 0 {
            0
        } else {
            millis as u64
        }
    }

    /// Computes [`SteadyClock::instant_of`].
    pub fn to_instant(millis: i64) -> (instant: u64)
        ensures
            instant == Self::instant_of(millis),
    {
        if millis < 0 {
            0
        } else {
            millis as u64
        }
    }

    /// The current instant: milliseconds since the clock was made.
    pub fn now(&self) -> (instant: u64)
        ensures
            instant <= i64::MAX,
    {
        let reading = steady_now();
        let span = steady_span(&reading, &self.origin);
        Self::to_instant(whole_millis(&span))
    }

    /// A wait of `timeout` milliseconds that begins at the current instant.
    pub fn deadline(&self, timeout: u64) -> (deadline: Deadline)
        ensures
            deadline.timeout == timeout,
            deadline.start <= i64::MAX,
    {
        Deadline::new(self.now(), timeout)
    }
}

} // verus!
