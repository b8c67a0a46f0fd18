//! Points in time and spans of time, as the receive deadlines use them.

use vstd::prelude::*;

verus! {

/// Nanoseconds in one second.
pub const NANOS_PER_SEC: u128 = 1_000_000_000;

/// Nanoseconds in one millisecond.
pub const NANOS_PER_MILLI: u128 = 1_000_000;

/// The last nanosecond that the monotonic clock can express: its seconds are
/// kept in a signed 64-bit integer.
pub const LAST_MOMENT_NANOS: u128 = 9_223_372_036_854_775_807_999_999_999;

/// The longest span that a caller can ask for: `u64::MAX` seconds and one
/// nanosecond less than a full further second.
pub const LONGEST_SPAN_NANOS: u128 = 18_446_744_073_709_551_615_999_999_999;

/// Upper bound on the deadline that a timeout can produce, used only where the
/// requested span runs past the end of the clock: thirty years.
pub const MAX_DEADLINE_FROM_NOW_NANOS: u128 = 60 * 60 * 24 * 365 * 30 * 1_000_000_000;

/// A span of time in nanoseconds.
#[derive(Clone, Copy, Debug, PartialEq, Eq, PartialOrd, Ord)]
pub struct TimeSpan {
    pub nanos: u128,
}

/// A reading of the monotonic clock, in nanoseconds since its origin.
#[derive(Clone, Copy, Debug, PartialEq, Eq, PartialOrd, Ord)]
pub struct Moment {
    pub nanos: u128,
}

impl TimeSpan {
    /// A span of whole seconds.
    pub fn from_secs(secs: u64) -> (span: TimeSpan)
        ensures
            span.nanos == secs * NANOS_PER_SEC,
    {
        TimeSpan { nanos: secs as u128 * NANOS_PER_SEC }
    }

    /// A span of whole milliseconds.
    pub fn from_millis(millis: u64) -> (span: TimeSpan)
        ensures
            span.nanos == millis * NANOS_PER_MILLI,
    {
        TimeSpan { nanos: millis as u128 * NANOS_PER_MILLI }
    }

    /// The empty span.
    pub fn zero() -> (span: TimeSpan)
        ensures
            span.nanos == 0,
    {
        TimeSpan { nanos: 0 }
    }

    /// The longest span.
    pub fn max() -> (span: TimeSpan)
        ensures
            span.nanos == LONGEST_SPAN_NANOS,
    {
        TimeSpan { nanos: LONGEST_SPAN_NANOS }
    }
}

/// The moment `span` after `now`, where the clock can express it.
pub open spec fn moment_after(now: Moment, span: TimeSpan) -> Option<Moment> {
    if now.nanos + span.nanos <= LAST_MOMENT_NANOS {
        Some(Moment { nanos: (now.nanos + span.nanos) as u128 })
    } else {
        None
    }
}

/// The deadline that a timeout asked for at `now` produces: the moment the
/// timeout names, else thirty years out, else `now` itself.
pub open spec fn deadline_spec(now: Moment, timeout: TimeSpan) -> Moment {
    match moment_after(now, timeout) {
        Some(deadline) => deadline,
        None => match moment_after(now, TimeSpan { nanos: MAX_DEADLINE_FROM_NOW_NANOS }) {
            Some(deadline) => deadline,
            None => now,
        },
    }
}

impl Moment {
    /// The moment `span` later, or `None` where the clock cannot express it.
    pub fn checked_add(self, span: TimeSpan) -> (later: Option<Moment>)
        ensures
            later == moment_after(self, span),
    {
        match self.nanos.checked_add(span.nanos) {
            Some(nanos) => if nanos <= LAST_MOMENT_NANOS {
                Some(Moment { nanos })
            } else {
                None
            },
            None => None,
        }
    }

    /// How much time lies between `earlier` and this moment; nothing where
    /// `earlier` is not earlier.
    pub fn saturating_duration_since(self, earlier: Moment) -> (span: TimeSpan)
        ensures
            span.nanos == if self.nanos >= earlier.nanos {
                self.nanos - earlier.nanos
            } else {
                0
            },
    {
        TimeSpan { nanos: self.nanos.saturating_sub(earlier.nanos) }
    }
}

/// Turn a timeout into an absolute deadline. An arbitrarily long timeout is
/// clamped where it would run past the end of the clock.
pub fn deadline_from(now: Moment, timeout: TimeSpan) -> (deadline: Moment)
    ensures
        deadline == deadline_spec(now, timeout),
        now.nanos + timeout.nanos <= LAST_MOMENT_NANOS ==> deadline.nanos == now.nanos
            + timeout.nanos,
{
    match now.checked_add(timeout) {
        Some(deadline) => deadline,
        None => match now.checked_add(TimeSpan { nanos: MAX_DEADLINE_FROM_NOW_NANOS }) {
            Some(deadline) => deadline,
            None => now,
        },
    }
}

/// How long one poll may wait, in whole milliseconds: as long as the deadline
/// is away, at least `least_ms`, and no longer than `max_poll_window_ms`.
pub open spec fn poll_timeout_spec(
    remaining: TimeSpan,
    least_ms: u16,
    max_poll_window_ms: u16,
) -> u16 {
    let millis = remaining.nanos / NANOS_PER_MILLI;
    if millis < least_ms {
        least_ms
    } else if millis < max_poll_window_ms {
        millis as u16
    } else {
        max_poll_window_ms
    }
}

/// The timeout of the next poll, with `remaining` left until the deadline. With
/// a least timeout of one millisecond, a remainder below that is rounded up, so
/// that the poll blocks for it instead of returning at once.
pub fn poll_timeout_ms(remaining: TimeSpan, least_ms: u16, max_poll_window_ms: u16) -> (timeout_ms:
    u16)
    requires
        least_ms <= max_poll_window_ms,
    ensures
        timeout_ms == poll_timeout_spec(remaining, least_ms, max_poll_window_ms),
        least_ms <= timeout_ms <= max_poll_window_ms,
        timeout_ms == max_poll_window_ms || remaining.nanos < (timeout_ms + 1) * NANOS_PER_MILLI,
        timeout_ms == least_ms || timeout_ms * NANOS_PER_MILLI <= remaining.nanos,
{
    let millis: u128 = remaining.nanos / NANOS_PER_MILLI;
    let window: u128 = max_poll_window_ms as u128;
    if millis < least_ms as u128 {
        least_ms
    } else if millis < window {
        millis as u16
    } else {
        max_poll_window_ms
    }
}

/// A deadline is exactly the timeout away wherever the clock can express that:
/// no wait is cut short and none is drawn out. Where the clock cannot, the wait
/// is thirty years where it has room for them, and is over at once where it has
/// not even that.
pub proof fn law_deadline_is_exactly_the_timeout_away(
    now: Moment,
    timeout: TimeSpan,
    deadline: Moment,
)
    requires
        call_ensures(deadline_from, (now, timeout), deadline),
    ensures
        now.nanos + timeout.nanos <= LAST_MOMENT_NANOS ==> deadline.nanos == now.nanos
            + timeout.nanos,
        now.nanos + timeout.nanos > LAST_MOMENT_NANOS && now.nanos + MAX_DEADLINE_FROM_NOW_NANOS
            <= LAST_MOMENT_NANOS ==> deadline.nanos == now.nanos + MAX_DEADLINE_FROM_NOW_NANOS,
        now.nanos + timeout.nanos > LAST_MOMENT_NANOS && now.nanos + MAX_DEADLINE_FROM_NOW_NANOS
            > LAST_MOMENT_NANOS ==> deadline == now,
        MAX_DEADLINE_FROM_NOW_NANOS == 30 * 365 * 24 * 3600 * NANOS_PER_SEC,
        LAST_MOMENT_NANOS == (i64::MAX + 1) * NANOS_PER_SEC - 1,
{
}

/// Deadlines keep the order and the distance of their timeouts: of two waits
/// that begin at the same moment, the longer ends later, by as much as it is
/// longer.
pub proof fn law_deadlines_keep_the_distance_of_timeouts(
    now: Moment,
    shorter: TimeSpan,
    longer: TimeSpan,
    sooner: Moment,
    later: Moment,
)
    requires
        shorter.nanos <= longer.nanos,
        now.nanos + longer.nanos <= LAST_MOMENT_NANOS,
        call_ensures(deadline_from, (now, shorter), sooner),
        call_ensures(deadline_from, (now, longer), later),
    ensures
        later.nanos - sooner.nanos == longer.nanos - shorter.nanos,
{
}

/// Spans of seconds and of milliseconds measure the same time.
pub proof fn law_spans_agree(secs: u64, by_secs: TimeSpan, millis: u64, by_millis: TimeSpan)
    requires
        call_ensures(TimeSpan::from_secs, (secs,), by_secs),
        call_ensures(TimeSpan::from_millis, (millis,), by_millis),
    ensures
        by_secs.nanos == secs * 1_000_000_000,
        millis == secs * 1000 ==> by_millis == by_secs,
{
}

/// What is left until a moment, added to the moment it was asked at, leads to
/// that moment; and nothing is left of what is over.
pub proof fn law_remaining_time_leads_to_the_deadline(
    deadline: Moment,
    now: Moment,
    remaining: TimeSpan,
)
    requires
        call_ensures(Moment::saturating_duration_since, (deadline, now), remaining),
    ensures
        now.nanos <= deadline.nanos ==> now.nanos + remaining.nanos == deadline.nanos,
        now.nanos >= deadline.nanos ==> remaining.nanos == 0,
{
}

/// A deadline never lies before the moment it was computed at.
pub proof fn law_deadline_is_not_in_the_past(now: Moment, timeout: TimeSpan)
    ensures
        deadline_spec(now, timeout).nanos >= now.nanos,
{
}

/// However long the timeout, a deadline that the clock has room for lies in the
/// future: a clamped deadline does not time out at once.
pub proof fn law_clamped_deadline_is_in_the_future(now: Moment, timeout: TimeSpan)
    requires
        timeout.nanos > 0,
        now.nanos + MAX_DEADLINE_FROM_NOW_NANOS <= LAST_MOMENT_NANOS,
    ensures
        deadline_spec(now, timeout).nanos > now.nanos,
{
}

/// Waiting poll window after poll window up to a deadline never overshoots it
/// by a full millisecond, and with a least timeout of one millisecond every
/// window makes progress.
pub proof fn law_poll_window_bounds(remaining: TimeSpan, least_ms: u16, max_poll_window_ms: u16)
    requires
        remaining.nanos > 0,
        least_ms <= 1,
        least_ms <= max_poll_window_ms,
    ensures
        least_ms <= poll_timeout_spec(remaining, least_ms, max_poll_window_ms)
            <= max_poll_window_ms,
        poll_timeout_spec(remaining, least_ms, max_poll_window_ms) * NANOS_PER_MILLI
            < remaining.nanos + NANOS_PER_MILLI,
        remaining.nanos >= NANOS_PER_MILLI ==> poll_timeout_spec(
            remaining,
            least_ms,
            max_poll_window_ms,
        ) * NANOS_PER_MILLI <= remaining.nanos,
{
}

/// No poll is shorter than it has to be: it waits for a whole window, or until
/// less than a millisecond is left. A wait thus takes as few polls as it can, and
/// does not spin.
pub proof fn law_poll_waits_as_long_as_it_may(
    remaining: TimeSpan,
    least_ms: u16,
    max_poll_window_ms: u16,
    timeout_ms: u16,
)
    requires
        least_ms <= max_poll_window_ms,
        call_ensures(poll_timeout_ms, (remaining, least_ms, max_poll_window_ms), timeout_ms),
    ensures
        timeout_ms == poll_timeout_spec(remaining, least_ms, max_poll_window_ms),
        timeout_ms == max_poll_window_ms || remaining.nanos - timeout_ms * NANOS_PER_MILLI
            < NANOS_PER_MILLI,
        timeout_ms == least_ms || timeout_ms * NANOS_PER_MILLI <= remaining.nanos,
        NANOS_PER_MILLI * 1000 == NANOS_PER_SEC,
        NANOS_PER_SEC == 1_000_000_000,
{
}

/// Adding a span leads as far as the span is long, wherever the clock can express
/// that, and nowhere else.
pub proof fn law_later_is_as_much_later(now: Moment, span: TimeSpan, later: Option<Moment>)
    requires
        call_ensures(Moment::checked_add, (now, span), later),
    ensures
        later is Some <==> now.nanos + span.nanos <= LAST_MOMENT_NANOS,
        later matches Some(moment) ==> moment.nanos - now.nanos == span.nanos,
{
}

/// Every moment and every span can be asked about, and a poll can be planned for
/// any time that is left.
pub proof fn law_time_has_no_gaps(now: Moment, span: TimeSpan, least_ms: u16, max_ms: u16, n: u64)
    ensures
        call_requires(deadline_from, (now, span)),
        call_requires(Moment::checked_add, (now, span)),
        call_requires(Moment::saturating_duration_since, (now, now)),
        call_requires(TimeSpan::from_secs, (n,)),
        call_requires(TimeSpan::from_millis, (n,)),
        least_ms <= max_ms ==> call_requires(poll_timeout_ms, (span, least_ms, max_ms)),
{
}

} // verus!
