//! The read half of a channel.

use vstd::prelude::*;

use crate::channel::frame::{declared_len, prefix_value, MAX_MESSAGE_SIZE, PREFIX_LEN};
use crate::channel::timed_read::{
    read_exact_with_timeout, read_next, read_start, ReadEvent, ReadEventView, ReadNext, ReadState,
    ReadStep, TimedRead, Transport,
};
use crate::error::{ChannelRecvError, CodecError, IoError, IoErrorKind};
use crate::time::{deadline_from, deadline_spec, Moment, TimeSpan};

verus! {

/// The longest that one poll waits, in milliseconds. Deadlines further away are
/// reached poll by poll.
pub const POLL_WINDOW_MS: u16 = 65535;

/// Whether a receive that failed with `err`, after it had consumed `consumed`
/// bytes of a frame, leaves the stream in the middle of that frame.
pub open spec fn poisons(err: ChannelRecvError, consumed: nat) -> bool {
    consumed > 0 && err !is SenderClosed
}

/// The poison rule: any failure after partial consumption poisons, except the
/// end of the stream, which every later receive reports again by itself.
pub fn poison_after(err: &ChannelRecvError, consumed: usize) -> (poison: bool)
    ensures
        poison == poisons(*err, consumed as nat),
{
    consumed > 0 && !matches!(err, ChannelRecvError::SenderClosed)
}

/// What a failed blocking read means.
pub open spec fn blocking_read_error(transport: Transport, err: IoError) -> ChannelRecvError {
    if err.kind == IoErrorKind::UnexpectedEof || (err.kind == IoErrorKind::ConnectionReset
        && transport == Transport::Socket) {
        ChannelRecvError::SenderClosed
    } else {
        ChannelRecvError::Io(err)
    }
}

/// A blocking read reports a closed peer as an unexpected end of the stream, or,
/// on a socket, as a connection reset where the peer left unread bytes behind.
/// Both are the end of the channel.
pub fn normalize_blocking_read_err(transport: Transport, err: IoError) -> (normalized:
    ChannelRecvError)
    ensures
        normalized == blocking_read_error(transport, err),
{
    match (transport, err.kind) {
        (_, IoErrorKind::UnexpectedEof) => ChannelRecvError::SenderClosed,
        (Transport::Socket, IoErrorKind::ConnectionReset) => ChannelRecvError::SenderClosed,
        _ => ChannelRecvError::Io(err),
    }
}

/// What a typed receive returns for a frame that was read in full, given how
/// its decoding went.
pub fn decoded<T>(outcome: Result<T, CodecError>) -> (result: Result<T, ChannelRecvError>)
    ensures
        outcome matches Ok(message) ==> result == Ok::<T, ChannelRecvError>(message),
        outcome matches Err(err) ==> result == Err::<T, ChannelRecvError>(
            ChannelRecvError::Decode(err),
        ),
{
    match outcome {
        Ok(message) => Ok(message),
        Err(err) => Err(ChannelRecvError::Decode(err)),
    }
}

/// The read half of a channel: whether it may still be read from.
#[derive(Debug)]
pub struct Receiver {
    transport: Transport,
    poisoned: bool,
}

/// A frame that is being received before a deadline.
#[derive(Debug)]
pub struct RecvOp {
    in_payload: bool,
    deadline: Moment,
    read: TimedRead,
}

/// A `RecvOp`, as contracts see it.
pub struct RecvOpView {
    /// Whether the length prefix has been read.
    pub in_payload: bool,
    pub deadline: Moment,
    pub read: ReadState,
}

impl View for RecvOp {
    type V = RecvOpView;

    closed spec fn view(&self) -> RecvOpView {
        RecvOpView { in_payload: self.in_payload, deadline: self.deadline, read: self.read@ }
    }
}

impl RecvOpView {
    /// The read in progress is valid, and is the read of a prefix or of a
    /// payload within the limit.
    pub open spec fn valid(self) -> bool {
        &&& self.read.valid()
        &&& !self.in_payload ==> self.read.need == 4
        &&& self.in_payload ==> self.read.need <= MAX_MESSAGE_SIZE
        &&& self.read.deadline == self.deadline
        &&& self.read.max_poll_window_ms == POLL_WINDOW_MS
    }
}

/// What the owner of a receiver has to do next.
#[derive(Debug)]
pub enum RecvStep {
    /// Receive at most `max` bytes without blocking, and hand the result back
    /// with `op`.
    Recv { op: RecvOp, max: usize },
    /// Read the clock, and hand the reading back with `op`.
    ReadClock { op: RecvOp },
    /// Poll for at most `timeout_ms` milliseconds, and hand the result back
    /// with `op`.
    Poll { op: RecvOp, timeout_ms: u16 },
    /// The receive is over.
    Done(Result<Vec<u8>, ChannelRecvError>),
}

/// What a receive does next, as contracts see it.
pub enum RecvNext {
    Recv(RecvOpView, nat),
    ReadClock(RecvOpView),
    Poll(RecvOpView, u16),
    Done(Result<Seq<u8>, ChannelRecvError>),
}

/// A payload as a sequence, or the error in its place.
pub open spec fn payload_view(result: Result<Vec<u8>, ChannelRecvError>) -> Result<
    Seq<u8>,
    ChannelRecvError,
> {
    match result {
        Ok(bytes) => Ok(bytes@),
        Err(err) => Err(err),
    }
}

impl View for RecvStep {
    type V = RecvNext;

    open spec fn view(&self) -> RecvNext {
        match self {
            RecvStep::Recv { op, max } => RecvNext::Recv(op@, *max as nat),
            RecvStep::ReadClock { op } => RecvNext::ReadClock(op@),
            RecvStep::Poll { op, timeout_ms } => RecvNext::Poll(op@, *timeout_ms),
            RecvStep::Done(result) => RecvNext::Done(payload_view(*result)),
        }
    }
}

impl RecvNext {
    /// The receive in progress, where it is not over.
    pub open spec fn op(self) -> Option<RecvOpView> {
        match self {
            RecvNext::Recv(op, _) => Some(op),
            RecvNext::ReadClock(op) => Some(op),
            RecvNext::Poll(op, _) => Some(op),
            RecvNext::Done(_) => None,
        }
    }

    /// The receive in progress, where there is one, is valid and waits for the
    /// answer to this very step.
    pub open spec fn valid(self) -> bool {
        match self {
            RecvNext::Recv(op, max) => op.valid() && ReadNext::Recv(op.read, max).valid(),
            RecvNext::ReadClock(op) => op.valid() && ReadNext::ReadClock(op.read).valid(),
            RecvNext::Poll(op, timeout_ms) => op.valid() && ReadNext::Poll(
                op.read,
                timeout_ms,
            ).valid(),
            RecvNext::Done(_) => true,
        }
    }
}

/// The error about a frame whose prefix declares `len` bytes.
pub open spec fn too_large(len: nat) -> ChannelRecvError {
    ChannelRecvError::MessageTooLarge { size: len as usize, max: MAX_MESSAGE_SIZE }
}

/// How the payload of `len` bytes is read once its prefix is there.
pub open spec fn payload_begin(transport: Transport, len: nat, deadline: Moment) -> RecvNext {
    match read_start(transport, len, deadline, POLL_WINDOW_MS) {
        ReadNext::Recv(read, max) => RecvNext::Recv(
            RecvOpView { in_payload: true, deadline, read },
            max,
        ),
        ReadNext::Complete(bytes) => RecvNext::Done(Ok(bytes)),
        _ => arbitrary(),
    }
}

/// How a receive begins. A poisoned receiver refuses it.
pub open spec fn recv_begin(
    transport: Transport,
    poisoned: bool,
    now: Moment,
    timeout: TimeSpan,
) -> RecvNext {
    if poisoned {
        RecvNext::Done(Err(ChannelRecvError::Desynchronized))
    } else {
        let deadline = deadline_spec(now, timeout);
        RecvNext::Recv(
            RecvOpView {
                in_payload: false,
                deadline,
                read: ReadState {
                    transport,
                    phase: crate::channel::timed_read::ReadPhase::Recv,
                    need: 4,
                    got: Seq::empty(),
                    deadline,
                    max_poll_window_ms: POLL_WINDOW_MS,
                },
            },
            4,
        )
    }
}

/// How a receive goes on when `event` answers its last step, and whether that
/// poisons the receiver.
pub open spec fn recv_next(op: RecvOpView, event: ReadEventView) -> (RecvNext, bool) {
    match read_next(op.read, event) {
        ReadNext::Recv(read, max) => (RecvNext::Recv(RecvOpView { read, ..op }, max), false),
        ReadNext::ReadClock(read) => (RecvNext::ReadClock(RecvOpView { read, ..op }), false),
        ReadNext::Poll(read, timeout_ms) => (
            RecvNext::Poll(RecvOpView { read, ..op }, timeout_ms),
            false,
        ),
        ReadNext::Failed(err, consumed) => (
            RecvNext::Done(Err(err)),
            poisons(
                err,
                if op.in_payload {
                    4 + consumed
                } else {
                    consumed
                },
            ),
        ),
        ReadNext::Complete(bytes) => if op.in_payload {
            (RecvNext::Done(Ok(bytes)), false)
        } else if prefix_value(bytes) > MAX_MESSAGE_SIZE {
            (RecvNext::Done(Err(too_large(prefix_value(bytes)))), true)
        } else {
            (payload_begin(op.read.transport, prefix_value(bytes), op.deadline), false)
        },
    }
}

/// What a blocking receive does next, as contracts see it.
pub enum BlockingNext {
    /// Read this many bytes, in a receive that reads this part: whether it is
    /// the payload, and how many bytes are wanted.
    ReadExact((bool, nat), nat),
    /// The receive is over.
    Done(Result<Seq<u8>, ChannelRecvError>),
}

/// Which part of a frame a blocking receive is reading, and how long it is.
#[derive(Debug)]
pub struct BlockingOp {
    in_payload: bool,
    need: usize,
}

impl View for BlockingOp {
    type V = (bool, nat);

    /// Whether the payload is being read, and how many bytes are wanted.
    closed spec fn view(&self) -> (bool, nat) {
        (self.in_payload, self.need as nat)
    }
}

/// What the owner of a receiver has to do next in a blocking receive.
#[derive(Debug)]
pub enum BlockingStep {
    /// Read exactly `len` bytes, blocking, and hand the result back with `op`.
    ReadExact { op: BlockingOp, len: usize },
    /// The receive is over.
    Done(Result<Vec<u8>, ChannelRecvError>),
}

impl View for BlockingStep {
    type V = BlockingNext;

    open spec fn view(&self) -> BlockingNext {
        match self {
            BlockingStep::ReadExact { op, len } => BlockingNext::ReadExact(op@, *len as nat),
            BlockingStep::Done(result) => BlockingNext::Done(payload_view(*result)),
        }
    }
}

/// How a blocking receive begins.
pub open spec fn blocking_begin(poisoned: bool) -> BlockingNext {
    if poisoned {
        BlockingNext::Done(Err(ChannelRecvError::Desynchronized))
    } else {
        BlockingNext::ReadExact((false, 4), 4)
    }
}

/// How a blocking receive goes on after a read, and whether that poisons the
/// receiver. A failed blocking read does not tell how much it consumed, so
/// every failure but the end of the stream poisons.
pub open spec fn blocking_next(
    transport: Transport,
    in_payload: bool,
    read: Result<Seq<u8>, IoError>,
) -> (BlockingNext, bool) {
    match read {
        Err(err) => (
            BlockingNext::Done(Err(blocking_read_error(transport, err))),
            blocking_read_error(transport, err) !is SenderClosed,
        ),
        Ok(bytes) => if in_payload {
            (BlockingNext::Done(Ok(bytes)), false)
        } else if prefix_value(bytes) > MAX_MESSAGE_SIZE {
            (BlockingNext::Done(Err(too_large(prefix_value(bytes)))), true)
        } else {
            (BlockingNext::ReadExact((true, prefix_value(bytes)), prefix_value(bytes)), false)
        },
    }
}

/// A read's bytes as a sequence, or the error in their place.
pub open spec fn read_view(read: Result<Vec<u8>, IoError>) -> Result<Seq<u8>, IoError> {
    match read {
        Ok(bytes) => Ok(bytes@),
        Err(err) => Err(err),
    }
}

impl Receiver {
    /// Whether a failed receive has left the stream in the middle of a frame.
    pub closed spec fn poisoned(&self) -> bool {
        self.poisoned
    }

    /// What the channel travels over.
    pub closed spec fn transport(&self) -> Transport {
        self.transport
    }

    /// The read half of a fresh channel on a socket.
    pub fn new() -> (receiver: Receiver)
        ensures
            !receiver.poisoned(),
            receiver.transport() == Transport::Socket,
    {
        Receiver { transport: Transport::Socket, poisoned: false }
    }

    /// The read half of a fresh channel on a pipe.
    pub fn new_pipe() -> (receiver: Receiver)
        ensures
            !receiver.poisoned(),
            receiver.transport() == Transport::Pipe,
    {
        Receiver { transport: Transport::Pipe, poisoned: false }
    }

    /// Whether every further receive will fail without touching the channel.
    pub fn is_poisoned(&self) -> (poisoned: bool)
        ensures
            poisoned == self.poisoned(),
    {
        self.poisoned
    }

    /// Begin to receive one frame, bounded by `timeout` from `now` on.
    pub fn recv_raw_timeout(&self, now: Moment, timeout: TimeSpan) -> (step: RecvStep)
        ensures
            step@ == recv_begin(self.transport(), self.poisoned(), now, timeout),
            step@.valid(),
    {
        if self.poisoned {
            return RecvStep::Done(Err(ChannelRecvError::Desynchronized));
        }
        let deadline = deadline_from(now, timeout);
        match read_exact_with_timeout(self.transport, PREFIX_LEN, deadline, POLL_WINDOW_MS) {
            ReadStep::Recv { read, max } => RecvStep::Recv {
                op: RecvOp { in_payload: false, deadline, read },
                max,
            },
            _ => {
                assert(false);
                RecvStep::Done(Err(ChannelRecvError::Timeout))
            },
        }
    }

    /// Go on with a receive when `event` has answered its last step.
    pub fn recv_raw_resume(&mut self, op: RecvOp, event: ReadEvent) -> (step: RecvStep)
        requires
            op@.valid(),
            op@.read.transport == old(self).transport(),
            op@.read.admits(event@),
        ensures
            step@ == recv_next(op@, event@).0,
            step@.valid(),
            step@.op() matches Some(op) ==> op.read.transport == final(self).transport(),
            final(self).transport() == old(self).transport(),
            final(self).poisoned() == (old(self).poisoned() || recv_next(op@, event@).1),
    {
        let in_payload = op.in_payload;
        let deadline = op.deadline;
        match op.read.read_exact_with_timeout_impl(event) {
            ReadStep::Recv { read, max } => RecvStep::Recv {
                op: RecvOp { in_payload, deadline, read },
                max,
            },
            ReadStep::ReadClock { read } => RecvStep::ReadClock {
                op: RecvOp { in_payload, deadline, read },
            },
            ReadStep::Poll { read, timeout_ms } => RecvStep::Poll {
                op: RecvOp { in_payload, deadline, read },
                timeout_ms,
            },
            ReadStep::Failed { err, consumed } => {
                let consumed_of_frame: usize = if in_payload {
                    PREFIX_LEN + consumed
                } else {
                    consumed
                };
                if poison_after(&err, consumed_of_frame) {
                    self.poisoned = true;
                }
                RecvStep::Done(Err(err))
            },
            ReadStep::Complete { bytes } => {
                if in_payload {
                    return RecvStep::Done(Ok(bytes));
                }
                let len: usize = declared_len(bytes.as_slice()) as usize;
                if len > MAX_MESSAGE_SIZE {
                    self.poisoned = true;
                    return RecvStep::Done(
                        Err(ChannelRecvError::MessageTooLarge { size: len, max: MAX_MESSAGE_SIZE }),
                    );
                }
                match read_exact_with_timeout(self.transport, len, deadline, POLL_WINDOW_MS) {
                    ReadStep::Recv { read, max } => RecvStep::Recv {
                        op: RecvOp { in_payload: true, deadline, read },
                        max,
                    },
                    ReadStep::Complete { bytes } => RecvStep::Done(Ok(bytes)),
                    _ => {
                        assert(false);
                        RecvStep::Done(Err(ChannelRecvError::Timeout))
                    },
                }
            },
        }
    }

    /// Begin to receive one frame, for as long as it takes.
    pub fn read_length_prefixed(&self) -> (step: BlockingStep)
        ensures
            step@ == blocking_begin(self.poisoned()),
    {
        if self.poisoned {
            return BlockingStep::Done(Err(ChannelRecvError::Desynchronized));
        }
        BlockingStep::ReadExact {
            op: BlockingOp { in_payload: false, need: PREFIX_LEN },
            len: PREFIX_LEN,
        }
    }

    /// Go on with a blocking receive after its read.
    pub fn read_length_prefixed_resume(
        &mut self,
        op: BlockingOp,
        read: Result<Vec<u8>, IoError>,
    ) -> (step: BlockingStep)
        requires
            !op@.0 ==> op@.1 == 4,
            read matches Ok(bytes) ==> bytes@.len() == op@.1,
        ensures
            step@ == blocking_next(old(self).transport(), op@.0, read_view(read)).0,
            final(self).transport() == old(self).transport(),
            final(self).poisoned() == (old(self).poisoned() || blocking_next(
                old(self).transport(),
                op@.0,
                read_view(read),
            ).1),
    {
        match read {
            Err(err) => {
                let err = normalize_blocking_read_err(self.transport, err);
                if !matches!(err, ChannelRecvError::SenderClosed) {
                    self.poisoned = true;
                }
                BlockingStep::Done(Err(err))
            },
            Ok(bytes) => {
                if op.in_payload {
                    return BlockingStep::Done(Ok(bytes));
                }
                let len: usize = declared_len(bytes.as_slice()) as usize;
                if len > MAX_MESSAGE_SIZE {
                    self.poisoned = true;
                    return BlockingStep::Done(
                        Err(ChannelRecvError::MessageTooLarge { size: len, max: MAX_MESSAGE_SIZE }),
                    );
                }
                BlockingStep::ReadExact { op: BlockingOp { in_payload: true, need: len }, len }
            },
        }
    }
}

} // verus!
