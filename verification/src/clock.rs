//! Spans of time and millisecond counts: event time stamps and timer periods.
use vstd::prelude::*;

verus! {

/// A span of time.
#[derive(Clone, Copy, Debug, PartialEq, Eq, Structural)]
pub struct Span {
    /// Whole seconds.
    pub secs: u64,
    /// Nanoseconds beyond them.
    pub nanos: u32,
}

impl Span {
    /// The whole milliseconds of the span.
    pub open spec fn ms(self) -> int {
        self.secs * 1000 + self.nanos as int / 1_000_000
    }

    /// The span in nanoseconds.
    pub open spec fn ns(self) -> int {
        self.secs * 1_000_000_000 + self.nanos
    }
}

/// A count of milliseconds as it fits a 64-bit time stamp.
pub open spec fn stamp(elapsed: Span) -> int {
    if elapsed.ms() <= u64::MAX {
        elapsed.ms()
    } else {
        u64::MAX as int
    }
}

/// A count of milliseconds as it fits a system timer's 32-bit period.
pub open spec fn period(duration: Span) -> u32 {
    if duration.ms() <= u32::MAX {
        duration.ms() as u32
    } else {
        u32::MAX
    }
}

/// The whole milliseconds of a span; what is beyond them is dropped.
pub fn millis(span: Span) -> (ms: u128)
    ensures
        ms == span.ms(),
{
    span.secs as u128 * 1000 + (span.nanos / 1_000_000) as u128
}

/// The time stamp of an event: the milliseconds since the process took its first
/// stamp, held at the largest value once they no longer fit.
pub fn now_ms(elapsed: Span) -> (now: u64)
    ensures
        now == stamp(elapsed),
{
    let ms: u128 = millis(elapsed);
    if ms <= u64::MAX as u128 {
        ms as u64
    } else {
        u64::MAX
    }
}

/// The period of a system timer for a duration, held at the largest value once
/// the duration no longer fits.
pub fn timer_period(duration: Span) -> (ms: u32)
    ensures
        ms == period(duration),
{
    let ms: u128 = millis(duration);
    if ms <= u32::MAX as u128 {
        ms as u32
    } else {
        u32::MAX
    }
}

/// Milliseconds are rounded down: they are not longer than the span, and one more
/// would be.
pub proof fn lemma_millis_round_down(span: Span)
    ensures
        span.ms() * 1_000_000 <= span.ns() < (span.ms() + 1) * 1_000_000,
{
}

/// Time stamps never go back: a later reading has a stamp at least as large, and
/// a larger one when a millisecond has passed and the count fits.
pub proof fn lemma_stamps_increase(earlier: Span, later: Span)
    requires
        earlier.ns() <= later.ns(),
    ensures
        stamp(earlier) <= stamp(later),
        earlier.ns() + 1_000_000 <= later.ns() && later.ms() <= u64::MAX ==> stamp(earlier)
            < stamp(later),
{
    lemma_millis_round_down(earlier);
    lemma_millis_round_down(later);
}

/// A longer duration never gets a shorter timer, and no timer waits longer than
/// its duration.
pub proof fn lemma_periods_increase(shorter: Span, longer: Span)
    requires
        shorter.ns() <= longer.ns(),
    ensures
        period(shorter) <= period(longer),
        period(longer) * 1_000_000 <= longer.ns(),
{
    lemma_millis_round_down(shorter);
    lemma_millis_round_down(longer);
}

} // verus!
