//! Sending a frame before a deadline: a non-blocking write first, and a poll
//! where there was no room.

use vstd::prelude::*;

use crate::channel::frame::{frame, prefix_bytes, prefix_of, MAX_MESSAGE_SIZE};
use crate::channel::receiver::POLL_WINDOW_MS;
use crate::channel::sender::Sender;
use crate::error::{ChannelSendError, Errno, SysError};
use crate::time::{
    deadline_from, deadline_spec, poll_timeout_ms, poll_timeout_spec, Moment, TimeSpan,
    LAST_MOMENT_NANOS, NANOS_PER_MILLI,
};

verus! {

/// What a timed send is waiting for.
#[derive(Clone, Copy, Debug, PartialEq, Eq, Structural)]
pub enum WritePhase {
    /// The result of a non-blocking write.
    Write,
    /// A reading of the clock.
    Clock,
    /// The result of a poll.
    Poll,
}

/// What happened in answer to a timed send's last step.
#[derive(Debug)]
pub enum WriteEvent {
    /// The non-blocking write took this many bytes, or failed.
    Wrote(Result<usize, SysError>),
    /// The clock reads this.
    Clock(Moment),
    /// The poll reported room or the end of its window, or failed.
    Poll(Result<(), SysError>),
}

/// A timed send in progress, as contracts see it.
pub struct WriteState {
    pub phase: WritePhase,
    /// The frame that is being sent.
    pub frame: Seq<u8>,
    /// How many of its bytes have been written.
    pub done: nat,
    pub deadline: Moment,
}

impl WriteState {
    /// Some bytes are still to be written.
    pub open spec fn valid(self) -> bool {
        self.done < self.frame.len() <= 4 + MAX_MESSAGE_SIZE
    }

    /// Whether `event` can answer the step that this state is waiting in: a
    /// write that does not fail takes at least one byte, and none that it was
    /// not given.
    pub open spec fn admits(self, event: WriteEvent) -> bool {
        match event {
            WriteEvent::Wrote(Ok(n)) => self.phase == WritePhase::Write && 0 < n
                <= self.frame.len() - self.done,
            WriteEvent::Wrote(Err(_)) => self.phase == WritePhase::Write,
            WriteEvent::Clock(_) => self.phase == WritePhase::Clock,
            WriteEvent::Poll(_) => self.phase == WritePhase::Poll,
        }
    }
}

/// What a timed send does next.
pub enum WriteNext {
    /// Go on in the state, after a non-blocking write of what is left.
    Write(WriteState),
    /// Go on in the state, after reading the clock.
    ReadClock(WriteState),
    /// Go on in the state, after a poll of at most that many milliseconds.
    Poll(WriteState, u16),
    /// The send is over.
    Done(Result<(), ChannelSendError>),
}

impl WriteNext {
    /// The send in progress, where it is not over.
    pub open spec fn state(self) -> Option<WriteState> {
        match self {
            WriteNext::Write(s) => Some(s),
            WriteNext::ReadClock(s) => Some(s),
            WriteNext::Poll(s, _) => Some(s),
            WriteNext::Done(_) => None,
        }
    }

    /// The send in progress, where there is one, is valid and waits for the
    /// answer to this very step.
    pub open spec fn valid(self) -> bool {
        match self {
            WriteNext::Write(s) => s.valid() && s.phase == WritePhase::Write,
            WriteNext::ReadClock(s) => s.valid() && s.phase == WritePhase::Clock,
            WriteNext::Poll(s, timeout_ms) => s.valid() && s.phase == WritePhase::Poll
                && timeout_ms >= 1,
            WriteNext::Done(_) => true,
        }
    }
}

/// How a timed send of `payload` begins. What is refused is refused as without a
/// deadline, before anything is written.
pub open spec fn timed_send_begin(
    poisoned: bool,
    payload: Seq<u8>,
    now: Moment,
    timeout: TimeSpan,
) -> WriteNext {
    if poisoned {
        WriteNext::Done(Err(ChannelSendError::Desynchronized))
    } else if payload.len() > MAX_MESSAGE_SIZE {
        WriteNext::Done(
            Err(
                ChannelSendError::MessageTooLarge {
                    size: payload.len() as usize,
                    max: MAX_MESSAGE_SIZE,
                },
            ),
        )
    } else {
        WriteNext::Write(
            WriteState {
                phase: WritePhase::Write,
                frame: frame(payload),
                done: 0,
                deadline: deadline_spec(now, timeout),
            },
        )
    }
}

/// How a timed send goes on from `s` when `event` answers its last step, and
/// whether that poisons the sender: any failure after part of the frame was
/// written does.
pub open spec fn timed_send_next(s: WriteState, event: WriteEvent) -> (WriteNext, bool) {
    match event {
        WriteEvent::Wrote(Ok(n)) => if s.done + n == s.frame.len() {
            (WriteNext::Done(Ok(())), false)
        } else {
            (WriteNext::Write(WriteState { done: s.done + n as nat, ..s }), false)
        },
        WriteEvent::Wrote(Err(err)) => match err.errno {
            Errno::EAGAIN => (
                WriteNext::ReadClock(WriteState { phase: WritePhase::Clock, ..s }),
                false,
            ),
            Errno::EINTR => (WriteNext::Write(s), false),
            _ => (WriteNext::Done(Err(ChannelSendError::Io(err.error))), s.done > 0),
        },
        WriteEvent::Clock(now) => if now.nanos >= s.deadline.nanos {
            (WriteNext::Done(Err(ChannelSendError::Timeout)), s.done > 0)
        } else {
            (
                WriteNext::Poll(
                    WriteState { phase: WritePhase::Poll, ..s },
                    poll_timeout_spec(
                        TimeSpan { nanos: (s.deadline.nanos - now.nanos) as u128 },
                        1,
                        POLL_WINDOW_MS,
                    ),
                ),
                false,
            )
        },
        WriteEvent::Poll(result) => {
            let again = WriteNext::Write(WriteState { phase: WritePhase::Write, ..s });
            match result {
                Ok(_) => (again, false),
                Err(err) => match err.errno {
                    Errno::EINTR => (again, false),
                    _ => (WriteNext::Done(Err(ChannelSendError::Io(err.error))), s.done > 0),
                },
            }
        },
    }
}

/// A frame that is being sent before a deadline, with some of its bytes still to
/// be written.
#[derive(Debug)]
pub struct TimedSend {
    phase: WritePhase,
    frame: Vec<u8>,
    done: usize,
    deadline: Moment,
}

impl View for TimedSend {
    type V = WriteState;

    closed spec fn view(&self) -> WriteState {
        WriteState {
            phase: self.phase,
            frame: self.frame@,
            done: self.done as nat,
            deadline: self.deadline,
        }
    }
}

/// What the owner of a sender has to do next in a timed send.
#[derive(Debug)]
pub enum TimedSendStep {
    /// Write what is left of `op` without blocking, and hand the result back
    /// with it.
    Write { op: TimedSend },
    /// Read the clock, and hand the reading back with `op`.
    ReadClock { op: TimedSend },
    /// Poll for at most `timeout_ms` milliseconds, and hand the result back with
    /// `op`.
    Poll { op: TimedSend, timeout_ms: u16 },
    /// The send is over.
    Done(Result<(), ChannelSendError>),
}

impl View for TimedSendStep {
    type V = WriteNext;

    open spec fn view(&self) -> WriteNext {
        match self {
            TimedSendStep::Write { op } => WriteNext::Write(op@),
            TimedSendStep::ReadClock { op } => WriteNext::ReadClock(op@),
            TimedSendStep::Poll { op, timeout_ms } => WriteNext::Poll(op@, *timeout_ms),
            TimedSendStep::Done(result) => WriteNext::Done(*result),
        }
    }
}

impl TimedSend {
    /// The bytes that are still to be written.
    pub fn left(&self) -> (bytes: &[u8])
        requires
            self@.valid(),
        ensures
            bytes@ == self@.frame.subrange(self@.done as int, self@.frame.len() as int),
    {
        vstd::slice::slice_subrange(self.frame.as_slice(), self.done, self.frame.len())
    }
}

impl Sender {
    /// Begin to send raw bytes as one frame, bounded by `timeout` from `now` on.
    pub fn send_raw_with_timeout(&self, bytes: Vec<u8>, now: Moment, timeout: TimeSpan) -> (step:
        TimedSendStep)
        ensures
            step@ == timed_send_begin(self.poisoned(), bytes@, now, timeout),
            step@.valid(),
    {
        if self.is_poisoned() {
            return TimedSendStep::Done(Err(ChannelSendError::Desynchronized));
        }
        if bytes.len() > MAX_MESSAGE_SIZE {
            return TimedSendStep::Done(
                Err(
                    ChannelSendError::MessageTooLarge { size: bytes.len(), max: MAX_MESSAGE_SIZE },
                ),
            );
        }
        let prefix = prefix_of(bytes.len() as u32);
        let mut whole: Vec<u8> = Vec::new();
        whole.extend_from_slice(prefix.as_slice());
        assert(whole@ =~= prefix_bytes(bytes@.len()));
        let ghost payload = bytes@;
        let mut bytes = bytes;
        whole.append(&mut bytes);
        assert(whole@ =~= frame(payload));
        TimedSendStep::Write {
            op: TimedSend {
                phase: WritePhase::Write,
                frame: whole,
                done: 0,
                deadline: deadline_from(now, timeout),
            },
        }
    }

    /// Go on with a timed send when `event` has answered its last step. A write
    /// comes before the deadline check, and the end of a poll is no timeout.
    pub fn send_raw_with_timeout_resume(&mut self, op: TimedSend, event: WriteEvent) -> (step:
        TimedSendStep)
        requires
            op@.valid(),
            op@.admits(event),
        ensures
            step@ == timed_send_next(op@, event).0,
            step@.valid(),
            final(self).poisoned() == (old(self).poisoned() || timed_send_next(op@, event).1),
    {
        let mut op = op;
        let failed = match event {
            WriteEvent::Wrote(Ok(n)) => {
                op.done = op.done + n;
                if op.done == op.frame.len() {
                    return TimedSendStep::Done(Ok(()));
                }
                return TimedSendStep::Write { op };
            },
            WriteEvent::Wrote(Err(err)) => match err.errno {
                Errno::EAGAIN => {
                    op.phase = WritePhase::Clock;
                    return TimedSendStep::ReadClock { op };
                },
                Errno::EINTR => {
                    return TimedSendStep::Write { op };
                },
                _ => ChannelSendError::Io(err.error),
            },
            WriteEvent::Clock(now) => {
                let remaining = op.deadline.saturating_duration_since(now);
                if remaining.nanos > 0 {
                    let timeout_ms: u16 = poll_timeout_ms(remaining, 1, POLL_WINDOW_MS);
                    op.phase = WritePhase::Poll;
                    return TimedSendStep::Poll { op, timeout_ms };
                }
                ChannelSendError::Timeout
            },
            WriteEvent::Poll(result) => match result {
                Ok(()) => {
                    op.phase = WritePhase::Write;
                    return TimedSendStep::Write { op };
                },
                Err(err) => match err.errno {
                    Errno::EINTR => {
                        op.phase = WritePhase::Write;
                        return TimedSendStep::Write { op };
                    },
                    _ => ChannelSendError::Io(err.error),
                },
            },
        };
        if op.done > 0 {
            self.poison();
        }
        TimedSendStep::Done(Err(failed))
    }
}

/// How many bytes the writes among `events` have taken.
pub open spec fn written_bytes(events: Seq<WriteEvent>) -> nat
    decreases events.len(),
{
    if events.len() == 0 {
        0
    } else {
        written_bytes(events.drop_last()) + match events.last() {
            WriteEvent::Wrote(Ok(n)) => n as nat,
            _ => 0,
        }
    }
}

/// Where a timed send that began on a sound sender stands after `events`, and
/// whether it has poisoned the sender.
pub open spec fn timed_send_run(
    payload: Seq<u8>,
    now: Moment,
    timeout: TimeSpan,
    events: Seq<WriteEvent>,
) -> (WriteNext, bool)
    decreases events.len(),
{
    if events.len() == 0 {
        (timed_send_begin(false, payload, now, timeout), false)
    } else {
        let before = timed_send_run(payload, now, timeout, events.drop_last());
        match before.0.state() {
            Some(s) => timed_send_next(s, events.last()),
            None => before,
        }
    }
}

/// Whether `events` can answer the steps of a timed send one after the other.
pub open spec fn answers_timed_send(
    payload: Seq<u8>,
    now: Moment,
    timeout: TimeSpan,
    events: Seq<WriteEvent>,
) -> bool
    decreases events.len(),
{
    events.len() == 0 || {
        &&& answers_timed_send(payload, now, timeout, events.drop_last())
        &&& timed_send_run(payload, now, timeout, events.drop_last()).0.state() matches Some(s)
            && s.admits(events.last())
    }
}

/// A timed send accounts for every byte that it writes: they are always the
/// beginning of its frame. It succeeds exactly where they are all of it, and a
/// failure poisons the sender exactly where some were written: a send that
/// times out in the middle of its frame does, and one that times out before it
/// leaves the sender usable.
pub proof fn law_timed_send_accounts_for_every_byte(
    payload: Seq<u8>,
    now: Moment,
    timeout: TimeSpan,
    events: Seq<WriteEvent>,
)
    requires
        payload.len() <= MAX_MESSAGE_SIZE,
        answers_timed_send(payload, now, timeout, events),
    ensures
        ({
            let (next, poisoned) = timed_send_run(payload, now, timeout, events);
            let written = written_bytes(events);
            &&& written <= frame(payload).len()
            &&& match next {
                WriteNext::Done(Ok(_)) => written == frame(payload).len() && !poisoned,
                WriteNext::Done(Err(err)) => {
                    &&& written < frame(payload).len()
                    &&& poisoned == (written > 0)
                    &&& err is Timeout || err is Io
                },
                _ => !poisoned && next.valid() && (next.state() matches Some(s) && s.frame == frame(
                    payload,
                ) && s.done == written),
            }
        }),
    decreases events.len(),
{
    if events.len() > 0 {
        law_timed_send_accounts_for_every_byte(payload, now, timeout, events.drop_last());
    }
}

proof fn lemma_timed_send_keeps_its_deadline(
    payload: Seq<u8>,
    now: Moment,
    timeout: TimeSpan,
    events: Seq<WriteEvent>,
)
    requires
        answers_timed_send(payload, now, timeout, events),
    ensures
        timed_send_run(payload, now, timeout, events).0.state() matches Some(s) ==> s.deadline
            == deadline_spec(now, timeout),
    decreases events.len(),
{
    if events.len() > 0 {
        lemma_timed_send_keeps_its_deadline(payload, now, timeout, events.drop_last());
    }
}

/// A timed send times out only where a reading of the clock has reached its
/// deadline: the whole timeout has passed since it began, however much of the
/// frame was written, and however often there was no room.
pub proof fn law_timed_send_uses_its_whole_timeout(
    payload: Seq<u8>,
    now: Moment,
    timeout: TimeSpan,
    events: Seq<WriteEvent>,
)
    requires
        payload.len() <= MAX_MESSAGE_SIZE,
        answers_timed_send(payload, now, timeout, events),
        timed_send_run(payload, now, timeout, events).0 == WriteNext::Done(
            Err(ChannelSendError::Timeout),
        ),
    ensures
        events.len() > 0,
        events.last() matches WriteEvent::Clock(t) && t.nanos >= now.nanos && (now.nanos
            + timeout.nanos <= LAST_MOMENT_NANOS ==> t.nanos >= now.nanos + timeout.nanos),
{
    if events.len() > 0 {
        lemma_timed_send_keeps_its_deadline(payload, now, timeout, events.drop_last());
    }
}

/// A timed send is over only for a reason that its last event gives, and fails
/// with the error of that event: a write that took the last byte, a write or a
/// poll that failed, or the deadline.
pub proof fn law_timed_send_ends_only_for_a_reason(s: WriteState, event: WriteEvent)
    requires
        s.valid(),
        s.admits(event),
    ensures
        match timed_send_next(s, event).0 {
            WriteNext::Done(Ok(_)) => event matches WriteEvent::Wrote(Ok(n)) && s.done + n
                == s.frame.len(),
            WriteNext::Done(Err(ChannelSendError::Timeout)) => event matches WriteEvent::Clock(now)
                && now.nanos >= s.deadline.nanos,
            WriteNext::Done(Err(ChannelSendError::Io(io))) => {
                ||| event matches WriteEvent::Wrote(Err(err)) && err.error == io && err.errno
                    != Errno::EAGAIN && err.errno != Errno::EINTR
                ||| event matches WriteEvent::Poll(Err(err)) && err.error == io && err.errno
                    != Errno::EINTR
            },
            WriteNext::Done(_) => false,
            _ => true,
        },
{
}

/// A timed send goes on through everything that is no failure, and loses nothing
/// on the way: without room it looks at the clock, before the deadline it polls
/// for no longer than is left, after the poll and after an interruption it
/// writes again, and what was written counts.
pub proof fn law_timed_send_goes_on(
    s: WriteState,
    err: SysError,
    polled: Result<(), SysError>,
    now: Moment,
    n: usize,
)
    requires
        s.valid(),
    ensures
        err.errno == Errno::EAGAIN ==> (timed_send_next(s, WriteEvent::Wrote(Err(err))).0 matches
            WriteNext::ReadClock(t) && t.frame == s.frame && t.done == s.done && t.deadline
            == s.deadline),
        err.errno == Errno::EINTR ==> timed_send_next(s, WriteEvent::Wrote(Err(err))).0
            == WriteNext::Write(s),
        n < s.frame.len() - s.done ==> (timed_send_next(s, WriteEvent::Wrote(Ok(n))).0 matches
            WriteNext::Write(t) && t.frame == s.frame && t.done == s.done + n && t.deadline
            == s.deadline),
        now.nanos < s.deadline.nanos ==> (timed_send_next(s, WriteEvent::Clock(now)).0 matches
            WriteNext::Poll(t, timeout_ms) && t.frame == s.frame && t.done == s.done && t.deadline
            == s.deadline && timeout_ms >= 1 && timeout_ms * NANOS_PER_MILLI < s.deadline.nanos
            - now.nanos + NANOS_PER_MILLI && (timeout_ms == POLL_WINDOW_MS || s.deadline.nanos
            - now.nanos < (timeout_ms + 1) * NANOS_PER_MILLI)),
        now.nanos >= s.deadline.nanos ==> timed_send_next(s, WriteEvent::Clock(now)).0
            == WriteNext::Done(Err::<(), ChannelSendError>(ChannelSendError::Timeout)),
        (polled matches Err(e) ==> e.errno == Errno::EINTR) ==> (timed_send_next(
            s,
            WriteEvent::Poll(polled),
        ).0 matches WriteNext::Write(t) && t.frame == s.frame && t.done == s.done && t.deadline
            == s.deadline),
{
}

/// A timed send of a payload within the limit begins with a write of its whole
/// frame, and one of a longer payload is refused before anything is written.
pub proof fn law_timed_send_begins_with_the_whole_frame(
    sender: &Sender,
    bytes: Vec<u8>,
    now: Moment,
    timeout: TimeSpan,
    step: TimedSendStep,
)
    requires
        !sender.poisoned(),
        call_ensures(Sender::send_raw_with_timeout, (sender, bytes, now, timeout), step),
    ensures
        bytes@.len() <= 1024 * 1024 ==> (step@ matches WriteNext::Write(s) && s.frame == frame(
            bytes@,
        ) && s.done == 0 && (now.nanos + timeout.nanos <= LAST_MOMENT_NANOS ==> s.deadline.nanos
            == now.nanos + timeout.nanos)),
        bytes@.len() > 1024 * 1024 ==> (step@ matches WriteNext::Done(
            Err(ChannelSendError::MessageTooLarge { size, max }),
        ) && size == bytes@.len() && max == 1024 * 1024),
{
    assert(bytes.len() == bytes@.len());
}

/// A timed send poisons its sender where it fails after part of its frame was
/// written, and nowhere else; poison stays.
pub proof fn law_timed_send_poisons_in_mid_frame_only(
    sender: &mut Sender,
    op: TimedSend,
    event: WriteEvent,
    step: TimedSendStep,
)
    requires
        op@.valid(),
        op@.admits(event),
        call_ensures(Sender::send_raw_with_timeout_resume, (sender, op, event), step),
    ensures
        old(sender).poisoned() ==> final(sender).poisoned(),
        !old(sender).poisoned() ==> (final(sender).poisoned() <==> (step@ matches WriteNext::Done(
            Err(_),
        ) && op@.done > 0)),
{
}

/// What is left of a timed send is its frame without what was written.
pub proof fn law_written_and_left_make_the_frame(op: &TimedSend, left: &[u8])
    requires
        op@.valid(),
        call_ensures(TimedSend::left, (op,), left),
    ensures
        op@.frame.subrange(0, op@.done as int) + left@ == op@.frame,
        left@.len() > 0,
{
    assert(op@.frame.subrange(0, op@.done as int) + left@ =~= op@.frame);
}

/// Whether `event` is an answer to `step`, whatever it says: a write that does not
/// fail takes at least one byte, and none that it was not given.
pub open spec fn answers_send_step(step: TimedSendStep, op: TimedSend, event: WriteEvent) -> bool {
    match step {
        TimedSendStep::Write { op: o } => o == op && (event matches WriteEvent::Wrote(wrote) && (
        wrote matches Ok(n) ==> 0 < n <= op@.frame.len() - op@.done)),
        TimedSendStep::ReadClock { op: o } => o == op && event is Clock,
        TimedSendStep::Poll { op: o, timeout_ms } => o == op && event is Poll,
        TimedSendStep::Done(_) => false,
    }
}

/// A timed send takes every answer to its steps, from the first to the last.
pub proof fn law_timed_send_takes_every_answer(
    sender: &Sender,
    bytes: Vec<u8>,
    now: Moment,
    timeout: TimeSpan,
    first: TimedSendStep,
    writing: &mut Sender,
    op: TimedSend,
    event: WriteEvent,
    next: TimedSendStep,
    later: &mut Sender,
    next_op: TimedSend,
    next_event: WriteEvent,
)
    requires
        call_ensures(Sender::send_raw_with_timeout, (sender, bytes, now, timeout), first),
    ensures
        answers_send_step(first, op, event) ==> call_requires(
            Sender::send_raw_with_timeout_resume,
            (writing, op, event),
        ),
        call_ensures(Sender::send_raw_with_timeout_resume, (writing, op, event), next)
            && answers_send_step(next, next_op, next_event) ==> call_requires(
            Sender::send_raw_with_timeout_resume,
            (later, next_op, next_event),
        ),
{
}

} // verus!
