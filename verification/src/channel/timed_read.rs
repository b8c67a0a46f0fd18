//! Reading an exact number of bytes before a deadline: a non-blocking receive
//! first, and a poll where nothing was there.

use vstd::prelude::*;

use crate::error::{ChannelRecvError, Errno, SysError};
use crate::time::{poll_timeout_ms, poll_timeout_spec, Moment, TimeSpan, NANOS_PER_MILLI};

verus! {

/// What the bytes travel over.
#[derive(Clone, Copy, Debug, PartialEq, Eq, Structural)]
pub enum Transport {
    /// A socket. An interrupted receive is made again, a reset is the end of
    /// the stream, and every poll is followed by a receive.
    Socket,
    /// A pipe. An interrupted read and a reset are errors like any other, and a
    /// poll that found nothing is followed by a look at the clock.
    Pipe,
}

impl Transport {
    /// The least time that a poll is given, in milliseconds.
    pub open spec fn least_poll_spec(self) -> u16 {
        match self {
            Transport::Socket => 1,
            Transport::Pipe => 0,
        }
    }

    /// The least time that a poll is given, in milliseconds.
    pub fn least_poll_ms(self) -> (least_ms: u16)
        ensures
            least_ms == self.least_poll_spec(),
    {
        match self {
            Transport::Socket => 1,
            Transport::Pipe => 0,
        }
    }
}

/// What a timed read is waiting for.
#[derive(Clone, Copy, Debug, PartialEq, Eq, Structural)]
pub enum ReadPhase {
    /// The result of a non-blocking receive.
    Recv,
    /// A reading of the clock.
    Clock,
    /// The result of a poll.
    Poll,
}

/// What happened in answer to a timed read's last step.
#[derive(Debug)]
pub enum ReadEvent {
    /// The non-blocking receive returned these bytes (none of them: the peer
    /// closed its end), or failed.
    Recv(Result<Vec<u8>, SysError>),
    /// The clock reads this.
    Clock(Moment),
    /// The poll reported readiness, or that its window is over (`false`), or
    /// failed.
    Poll(Result<bool, SysError>),
}

/// A `ReadEvent` with its bytes as a sequence.
pub enum ReadEventView {
    Recv(Result<Seq<u8>, SysError>),
    Clock(Moment),
    Poll(Result<bool, SysError>),
}

impl View for ReadEvent {
    type V = ReadEventView;

    open spec fn view(&self) -> ReadEventView {
        match self {
            ReadEvent::Recv(Ok(bytes)) => ReadEventView::Recv(Ok(bytes@)),
            ReadEvent::Recv(Err(err)) => ReadEventView::Recv(Err(*err)),
            ReadEvent::Clock(now) => ReadEventView::Clock(*now),
            ReadEvent::Poll(result) => ReadEventView::Poll(*result),
        }
    }
}

/// A timed read in progress, as contracts see it.
pub struct ReadState {
    pub transport: Transport,
    pub phase: ReadPhase,
    /// How many bytes are wanted in all.
    pub need: nat,
    /// The bytes that have arrived.
    pub got: Seq<u8>,
    pub deadline: Moment,
    pub max_poll_window_ms: u16,
}

impl ReadState {
    /// Some bytes are still missing, and a poll may wait for as long as it has
    /// to.
    pub open spec fn valid(self) -> bool {
        &&& self.got.len() < self.need <= usize::MAX
        &&& self.transport.least_poll_spec() <= self.max_poll_window_ms
    }

    /// Whether `event` can answer the step that this state is waiting in: a
    /// receive returns no more bytes than it was given room for.
    pub open spec fn admits(self, event: ReadEventView) -> bool {
        match event {
            ReadEventView::Recv(Ok(bytes)) => self.phase == ReadPhase::Recv && self.got.len()
                + bytes.len() <= self.need,
            ReadEventView::Recv(Err(_)) => self.phase == ReadPhase::Recv,
            ReadEventView::Clock(_) => self.phase == ReadPhase::Clock,
            ReadEventView::Poll(_) => self.phase == ReadPhase::Poll,
        }
    }
}

/// What a timed read does next.
pub enum ReadNext {
    /// Go on in the state, after a non-blocking receive of at most `max` bytes.
    Recv(ReadState, nat),
    /// Go on in the state, after reading the clock.
    ReadClock(ReadState),
    /// Go on in the state, after a poll of at most that many milliseconds.
    Poll(ReadState, u16),
    /// All bytes are there.
    Complete(Seq<u8>),
    /// The read failed, with so many bytes already consumed.
    Failed(ChannelRecvError, nat),
}

impl ReadNext {
    /// The state to go on in, where there is one, is valid and waits for the
    /// answer to this very step.
    pub open spec fn valid(self) -> bool {
        match self {
            ReadNext::Recv(s, max) => s.valid() && s.phase == ReadPhase::Recv && max == s.need
                - s.got.len(),
            ReadNext::ReadClock(s) => s.valid() && s.phase == ReadPhase::Clock,
            ReadNext::Poll(s, timeout_ms) => s.valid() && s.phase == ReadPhase::Poll
                && s.transport.least_poll_spec() <= timeout_ms <= s.max_poll_window_ms,
            ReadNext::Complete(_) => true,
            ReadNext::Failed(_, _) => true,
        }
    }
}

/// How a timed read goes on from `s` when `event` answers its last step.
pub open spec fn read_next(s: ReadState, event: ReadEventView) -> ReadNext {
    match event {
        ReadEventView::Recv(Ok(bytes)) => {
            if bytes.len() == 0 {
                ReadNext::Failed(ChannelRecvError::SenderClosed, s.got.len())
            } else if s.got.len() + bytes.len() == s.need {
                ReadNext::Complete(s.got + bytes)
            } else {
                ReadNext::Recv(
                    ReadState { got: s.got + bytes, ..s },
                    (s.need - s.got.len() - bytes.len()) as nat,
                )
            }
        },
        ReadEventView::Recv(Err(err)) => match err.errno {
            Errno::EAGAIN => ReadNext::ReadClock(ReadState { phase: ReadPhase::Clock, ..s }),
            Errno::EINTR => match s.transport {
                Transport::Socket => ReadNext::Recv(s, (s.need - s.got.len()) as nat),
                Transport::Pipe => ReadNext::Failed(ChannelRecvError::Io(err.error), s.got.len()),
            },
            Errno::ECONNRESET => match s.transport {
                Transport::Socket => ReadNext::Failed(
                    ChannelRecvError::SenderClosed,
                    s.got.len(),
                ),
                Transport::Pipe => ReadNext::Failed(ChannelRecvError::Io(err.error), s.got.len()),
            },
            Errno::Other(_) => ReadNext::Failed(ChannelRecvError::Io(err.error), s.got.len()),
        },
        ReadEventView::Clock(now) => {
            if now.nanos >= s.deadline.nanos {
                ReadNext::Failed(ChannelRecvError::Timeout, s.got.len())
            } else {
                ReadNext::Poll(
                    ReadState { phase: ReadPhase::Poll, ..s },
                    poll_timeout_spec(
                        TimeSpan { nanos: (s.deadline.nanos - now.nanos) as u128 },
                        s.transport.least_poll_spec(),
                        s.max_poll_window_ms,
                    ),
                )
            }
        },
        ReadEventView::Poll(result) => {
            let again = ReadNext::Recv(
                ReadState { phase: ReadPhase::Recv, ..s },
                (s.need - s.got.len()) as nat,
            );
            let expired = match s.transport {
                Transport::Socket => again,
                Transport::Pipe => ReadNext::ReadClock(ReadState { phase: ReadPhase::Clock, ..s }),
            };
            match result {
                Ok(ready) => if ready {
                    again
                } else {
                    expired
                },
                Err(err) => match err.errno {
                    Errno::EINTR => expired,
                    _ => ReadNext::Failed(ChannelRecvError::Io(err.error), s.got.len()),
                },
            }
        },
    }
}

/// A read of an exact number of bytes that some bytes are still missing from.
#[derive(Debug)]
pub struct TimedRead {
    transport: Transport,
    phase: ReadPhase,
    need: usize,
    got: Vec<u8>,
    deadline: Moment,
    max_poll_window_ms: u16,
}

impl View for TimedRead {
    type V = ReadState;

    closed spec fn view(&self) -> ReadState {
        ReadState {
            transport: self.transport,
            phase: self.phase,
            need: self.need as nat,
            got: self.got@,
            deadline: self.deadline,
            max_poll_window_ms: self.max_poll_window_ms,
        }
    }
}

/// What the owner of a timed read has to do next.
#[derive(Debug)]
pub enum ReadStep {
    /// Receive at most `max` bytes without blocking, and hand the result to
    /// `read`.
    Recv { read: TimedRead, max: usize },
    /// Read the clock, and hand the reading to `read`.
    ReadClock { read: TimedRead },
    /// Poll for at most `timeout_ms` milliseconds, and hand the result to
    /// `read`.
    Poll { read: TimedRead, timeout_ms: u16 },
    /// The bytes that were wanted.
    Complete { bytes: Vec<u8> },
    /// The read failed after it had consumed `consumed` bytes.
    Failed { err: ChannelRecvError, consumed: usize },
}

impl View for ReadStep {
    type V = ReadNext;

    open spec fn view(&self) -> ReadNext {
        match self {
            ReadStep::Recv { read, max } => ReadNext::Recv(read@, *max as nat),
            ReadStep::ReadClock { read } => ReadNext::ReadClock(read@),
            ReadStep::Poll { read, timeout_ms } => ReadNext::Poll(read@, *timeout_ms),
            ReadStep::Complete { bytes } => ReadNext::Complete(bytes@),
            ReadStep::Failed { err, consumed } => ReadNext::Failed(*err, *consumed as nat),
        }
    }
}

/// How a read of `need` bytes begins.
pub open spec fn read_start(
    transport: Transport,
    need: nat,
    deadline: Moment,
    max_poll_window_ms: u16,
) -> ReadNext {
    if need == 0 {
        ReadNext::Complete(Seq::empty())
    } else {
        ReadNext::Recv(
            ReadState {
                transport,
                phase: ReadPhase::Recv,
                need,
                got: Seq::empty(),
                deadline,
                max_poll_window_ms,
            },
            need,
        )
    }
}

/// Begin to read exactly `need` bytes before `deadline`, with polls of at most
/// `max_poll_window_ms` milliseconds each, which on a socket is at least one. An
/// empty read is complete at once.
pub fn read_exact_with_timeout(
    transport: Transport,
    need: usize,
    deadline: Moment,
    max_poll_window_ms: u16,
) -> (step: ReadStep)
    requires
        transport.least_poll_spec() <= max_poll_window_ms,
    ensures
        step@ == read_start(transport, need as nat, deadline, max_poll_window_ms),
        step@.valid(),
{
    if need == 0 {
        ReadStep::Complete { bytes: Vec::new() }
    } else {
        ReadStep::Recv {
            read: TimedRead {
                transport,
                phase: ReadPhase::Recv,
                need,
                got: Vec::new(),
                deadline,
                max_poll_window_ms,
            },
            max: need,
        }
    }
}

impl TimedRead {
    /// Go on with the read when `event` has answered its last step.
    ///
    /// The receive comes before the deadline check, so bytes that already wait
    /// are consumed even where the deadline has passed. The end of a poll window
    /// is no timeout: the read goes on, and the deadline is checked against the
    /// clock.
    pub fn read_exact_with_timeout_impl(self, event: ReadEvent) -> (step: ReadStep)
        requires
            self@.valid(),
            self@.admits(event@),
        ensures
            step@ == read_next(self@, event@),
            step@.valid(),
    {
        let need: usize = self.need;
        let have: usize = self.got.len();
        match event {
            ReadEvent::Recv(Ok(bytes)) => {
                if bytes.len() == 0 {
                    return ReadStep::Failed { err: ChannelRecvError::SenderClosed, consumed: have };
                }
                let mut read = self;
                let mut bytes = bytes;
                read.got.append(&mut bytes);
                let now_have: usize = read.got.len();
                if now_have == need {
                    ReadStep::Complete { bytes: read.got }
                } else {
                    ReadStep::Recv { read, max: need - now_have }
                }
            },
            ReadEvent::Recv(Err(err)) => match err.errno {
                Errno::EAGAIN => {
                    let mut read = self;
                    read.phase = ReadPhase::Clock;
                    ReadStep::ReadClock { read }
                },
                Errno::EINTR => match self.transport {
                    Transport::Socket => ReadStep::Recv { read: self, max: need - have },
                    Transport::Pipe => ReadStep::Failed {
                        err: ChannelRecvError::Io(err.error),
                        consumed: have,
                    },
                },
                Errno::ECONNRESET => match self.transport {
                    Transport::Socket => ReadStep::Failed {
                        err: ChannelRecvError::SenderClosed,
                        consumed: have,
                    },
                    Transport::Pipe => ReadStep::Failed {
                        err: ChannelRecvError::Io(err.error),
                        consumed: have,
                    },
                },
                Errno::Other(_) => ReadStep::Failed {
                    err: ChannelRecvError::Io(err.error),
                    consumed: have,
                },
            },
            ReadEvent::Clock(now) => {
                let remaining = self.deadline.saturating_duration_since(now);
                if remaining.nanos == 0 {
                    return ReadStep::Failed { err: ChannelRecvError::Timeout, consumed: have };
                }
                let least_ms: u16 = self.transport.least_poll_ms();
                let timeout_ms: u16 = poll_timeout_ms(remaining, least_ms, self.max_poll_window_ms);
                let mut read = self;
                read.phase = ReadPhase::Poll;
                ReadStep::Poll { read, timeout_ms }
            },
            ReadEvent::Poll(result) => {
                let ready = match result {
                    Ok(ready) => ready,
                    Err(err) => match err.errno {
                        Errno::EINTR => false,
                        _ => {
                            return ReadStep::Failed {
                                err: ChannelRecvError::Io(err.error),
                                consumed: have,
                            };
                        },
                    },
                };
                let mut read = self;
                if !ready && matches!(read.transport, Transport::Pipe) {
                    read.phase = ReadPhase::Clock;
                    return ReadStep::ReadClock { read };
                }
                read.phase = ReadPhase::Recv;
                ReadStep::Recv { read, max: need - have }
            },
        }
    }
}

/// A read asks for all that it wants at first, and a read of nothing is complete
/// at once.
pub proof fn law_read_begins_with_all_that_is_wanted(
    transport: Transport,
    need: usize,
    deadline: Moment,
    max_poll_window_ms: u16,
    step: ReadStep,
)
    requires
        transport.least_poll_spec() <= max_poll_window_ms,
        call_ensures(
            read_exact_with_timeout,
            (transport, need, deadline, max_poll_window_ms),
            step,
        ),
    ensures
        need == 0 ==> (step matches ReadStep::Complete { bytes } && bytes@.len() == 0),
        need > 0 ==> (step matches ReadStep::Recv { read, max } && max == need && read@.need == need
            && read@.got.len() == 0 && read@.deadline == deadline && read@.transport == transport),
{
}

/// A read is over only for a reason that its last event gives: the last byte, the
/// end of the stream, an error of the system, or the deadline. It fails with that
/// reason, and says how many bytes it had by then.
pub proof fn law_read_ends_only_for_a_reason(read: TimedRead, event: ReadEvent, step: ReadStep)
    requires
        read@.valid(),
        read@.admits(event@),
        call_ensures(TimedRead::read_exact_with_timeout_impl, (read, event), step),
    ensures
        step matches ReadStep::Complete { bytes } ==> (event@ matches ReadEventView::Recv(Ok(b))
            && b.len() > 0 && bytes@ == read@.got + b && bytes@.len() == read@.need),
        step matches ReadStep::Failed { err, consumed } ==> consumed == read@.got.len() && match err {
            ChannelRecvError::Timeout => event@ matches ReadEventView::Clock(now) && now.nanos
                >= read@.deadline.nanos,
            ChannelRecvError::SenderClosed => {
                ||| event@ matches ReadEventView::Recv(Ok(b)) && b.len() == 0
                ||| event@ matches ReadEventView::Recv(Err(e)) && e.errno == Errno::ECONNRESET
                    && read@.transport == Transport::Socket
            },
            ChannelRecvError::Io(io) => {
                ||| event@ matches ReadEventView::Recv(Err(e)) && e.error == io && e.errno
                    != Errno::EAGAIN && (read@.transport == Transport::Socket ==> e.errno is Other)
                ||| event@ matches ReadEventView::Poll(Err(e)) && e.error == io && e.errno
                    != Errno::EINTR
            },
            _ => false,
        },
{
}

/// A read goes on through everything else without losing a byte: where nothing is
/// available it looks at the clock, before the deadline it polls, when a poll
/// finds something it receives, and what arrives is added to what is there.
pub proof fn law_read_goes_on(read: TimedRead, event: ReadEvent, step: ReadStep)
    requires
        read@.valid(),
        read@.admits(event@),
        call_ensures(TimedRead::read_exact_with_timeout_impl, (read, event), step),
    ensures
        event@ matches ReadEventView::Recv(Ok(b)) ==> 0 < b.len() ==> match step {
            ReadStep::Recv { read: next, max } => next@.got == read@.got + b && max + b.len()
                + read@.got.len() == read@.need && next@.deadline == read@.deadline,
            ReadStep::Complete { bytes } => bytes@ == read@.got + b && bytes@.len() == read@.need,
            _ => false,
        },
        event@ matches ReadEventView::Recv(Err(e)) ==> e.errno == Errno::EAGAIN ==> (step matches
            ReadStep::ReadClock { read: next } && next@.got == read@.got && next@.need == read@.need
            && next@.deadline == read@.deadline),
        event@ matches ReadEventView::Recv(Err(e)) ==> e.errno == Errno::EINTR && read@.transport
            == Transport::Socket ==> (step matches ReadStep::Recv { read: next, max } && next@ == read@),
        event@ matches ReadEventView::Clock(now) ==> now.nanos < read@.deadline.nanos ==> (step matches
            ReadStep::Poll { read: next, timeout_ms } && next@.got == read@.got && next@.need
            == read@.need && next@.deadline == read@.deadline && timeout_ms <= read@.max_poll_window_ms
            && (timeout_ms == read@.max_poll_window_ms || read@.deadline.nanos - now.nanos < (timeout_ms
            + 1) * NANOS_PER_MILLI)),
        event@ matches ReadEventView::Clock(now) ==> now.nanos >= read@.deadline.nanos ==> (step matches
            ReadStep::Failed { err, consumed } && err is Timeout),
        event@ == ReadEventView::Poll(Ok(true)) ==> (step matches ReadStep::Recv { read: next, max }
            && next@.got == read@.got && next@.need == read@.need && next@.deadline == read@.deadline
            && max == read@.need - read@.got.len()),
        event@ == ReadEventView::Poll(Ok(false)) ==> match read@.transport {
            Transport::Socket => step matches ReadStep::Recv { read: next, max } && next@.got
                == read@.got && next@.deadline == read@.deadline,
            Transport::Pipe => step matches ReadStep::ReadClock { read: next } && next@.got
                == read@.got && next@.deadline == read@.deadline,
        },
        event@ matches ReadEventView::Poll(Err(e)) ==> e.errno == Errno::EINTR ==> match read@.transport {
            Transport::Socket => step matches ReadStep::Recv { read: next, max } && next@.got
                == read@.got && next@.deadline == read@.deadline,
            Transport::Pipe => step matches ReadStep::ReadClock { read: next } && next@.got
                == read@.got && next@.deadline == read@.deadline,
        },
{
}

} // verus!
