//! What holds of whole receives and of whole streams of messages, however the
//! socket cuts the bytes into pieces.

use vstd::prelude::*;

use crate::channel::frame::{
    declared_len, frame, frames, law_prefix_is_canonical, law_prefix_round_trip, prefix_bytes,
    prefix_of, prefix_value, MAX_MESSAGE_SIZE,
};
use crate::channel::receiver::{
    blocking_begin, blocking_next, decoded, normalize_blocking_read_err, poison_after, recv_begin,
    recv_next, BlockingNext, BlockingOp, BlockingStep, Receiver, RecvNext, RecvOp, RecvOpView,
    RecvStep, POLL_WINDOW_MS,
};
use crate::channel::sender::{send_run, SendOp, Sender};
use crate::channel::timed_read::{ReadEvent, ReadEventView, Transport};
use crate::channel::timed_send::{TimedSend, WriteEvent};
use crate::error::{ChannelRecvError, CodecError, Errno, IoError, IoErrorKind, SysError};
use crate::time::{
    deadline_spec, law_poll_window_bounds, Moment, TimeSpan, LAST_MOMENT_NANOS, NANOS_PER_MILLI,
};

verus! {

/// The bytes that the receives among `events` took off the socket.
pub open spec fn delivered(events: Seq<ReadEventView>) -> Seq<u8>
    decreases events.len(),
{
    if events.len() == 0 {
        Seq::empty()
    } else {
        let before = delivered(events.drop_last());
        match events.last() {
            ReadEventView::Recv(Ok(bytes)) => before + bytes,
            _ => before,
        }
    }
}

/// Where a receive that began on a sound receiver stands after `events`, and
/// whether it has poisoned the receiver.
pub open spec fn recv_run(
    transport: Transport,
    now: Moment,
    timeout: TimeSpan,
    events: Seq<ReadEventView>,
) -> (RecvNext, bool)
    decreases events.len(),
{
    if events.len() == 0 {
        (recv_begin(transport, false, now, timeout), false)
    } else {
        let before = recv_run(transport, now, timeout, events.drop_last());
        match before.0.op() {
            Some(op) => recv_next(op, events.last()),
            None => before,
        }
    }
}

/// Whether `events` can answer the steps of a receive one after the other.
pub open spec fn answers(
    transport: Transport,
    now: Moment,
    timeout: TimeSpan,
    events: Seq<ReadEventView>,
) -> bool
    decreases events.len(),
{
    events.len() == 0 || {
        &&& answers(transport, now, timeout, events.drop_last())
        &&& recv_run(transport, now, timeout, events.drop_last()).0.op() matches Some(op) && op.read.admits(
            events.last(),
        )
    }
}

/// The frame is not over: its prefix is not there yet, or the prefix is within
/// the limit and part of the payload it declares is missing.
pub open spec fn inside_frame(bytes: Seq<u8>) -> bool {
    bytes.len() < 4 || (prefix_value(bytes) <= MAX_MESSAGE_SIZE && bytes.len() < 4 + prefix_value(
        bytes,
    ))
}

/// What is true of a receive that has taken `bytes` off the socket.
pub open spec fn recv_accounts_for(state: RecvNext, poisoned: bool, bytes: Seq<u8>) -> bool {
    match state.op() {
        Some(op) => {
            &&& !poisoned
            &&& state.valid()
            &&& inside_frame(bytes)
            &&& !op.in_payload ==> op.read.got == bytes
            &&& op.in_payload ==> {
                &&& bytes.len() >= 4
                &&& op.read.need == prefix_value(bytes)
                &&& bytes == bytes.subrange(0, 4) + op.read.got
            }
        },
        None => match state->Done_0 {
            Ok(payload) => !poisoned && payload.len() <= MAX_MESSAGE_SIZE && bytes == frame(
                payload,
            ),
            Err(ChannelRecvError::MessageTooLarge { size, max }) => poisoned && bytes.len() == 4
                && prefix_value(bytes) > MAX_MESSAGE_SIZE && size == prefix_value(bytes) && max
                == MAX_MESSAGE_SIZE,
            Err(err) => {
                &&& inside_frame(bytes)
                &&& poisoned == (bytes.len() > 0 && !(err is SenderClosed))
                &&& err is Timeout || err is SenderClosed || err is Io
            },
        },
    }
}

proof fn lemma_prefix_of_longer(bytes: Seq<u8>, more: Seq<u8>)
    requires
        bytes.len() >= 4,
    ensures
        prefix_value(bytes + more) == prefix_value(bytes),
        (bytes + more).subrange(0, 4) == bytes.subrange(0, 4),
{
    assert((bytes + more)[0] == bytes[0]);
    assert((bytes + more)[1] == bytes[1]);
    assert((bytes + more)[2] == bytes[2]);
    assert((bytes + more)[3] == bytes[3]);
    assert((bytes + more).subrange(0, 4) =~= bytes.subrange(0, 4));
}

proof fn lemma_is_frame(bytes: Seq<u8>, payload: Seq<u8>)
    requires
        bytes.len() >= 4,
        bytes == bytes.subrange(0, 4) + payload,
        payload.len() == prefix_value(bytes),
    ensures
        bytes == frame(payload),
{
    let head = bytes.subrange(0, 4);
    law_prefix_is_canonical(head);
    assert(prefix_value(head) == prefix_value(bytes));
    assert(bytes =~= frame(payload));
}

/// A receive accounts for every byte that it takes off the socket. While it
/// runs, those bytes are the beginning of a frame. When it succeeds they are
/// exactly the frame of the payload it returns, so the next receive starts at a
/// frame boundary. When it fails they lie inside a frame, and the receiver is
/// poisoned exactly where there are any and the stream is not at its end; a
/// frame beyond the limit is refused after its prefix, and poisons.
#[verifier::rlimit(60)]
pub proof fn law_receive_accounts_for_every_byte(
    transport: Transport,
    now: Moment,
    timeout: TimeSpan,
    events: Seq<ReadEventView>,
)
    requires
        answers(transport, now, timeout, events),
    ensures
        recv_accounts_for(
            recv_run(transport, now, timeout, events).0,
            recv_run(transport, now, timeout, events).1,
            delivered(events),
        ),
    decreases events.len(),
{
    if events.len() > 0 {
        let earlier = events.drop_last();
        let event = events.last();
        law_receive_accounts_for_every_byte(transport, now, timeout, earlier);
        let before = recv_run(transport, now, timeout, earlier).0;
        let taken = delivered(earlier);
        let op = before.op()->Some_0;
        let all = delivered(events);
        match event {
            ReadEventView::Recv(Ok(bytes)) => {
                assert(all == taken + bytes);
                if op.in_payload {
                    lemma_prefix_of_longer(taken, bytes);
                    assert(all =~= all.subrange(0, 4) + (op.read.got + bytes));
                    if op.read.got.len() + bytes.len() == op.read.need {
                        lemma_is_frame(all, op.read.got + bytes);
                    }
                    if bytes.len() == 0 {
                        assert(all =~= taken);
                    }
                } else {
                    assert(all =~= op.read.got + bytes);
                    if bytes.len() == 0 {
                        assert(all =~= taken);
                    }
                    if all.len() == 4 {
                        assert(all =~= all.subrange(0, 4) + Seq::<u8>::empty());
                        law_prefix_is_canonical(all);
                        if prefix_value(all) == 0 {
                            lemma_is_frame(all, Seq::<u8>::empty());
                        }
                    }
                }
            },
            _ => {
                assert(all == taken);
            },
        }
    }
}

/// Whether `bytes` is the beginning of `stream`.
pub open spec fn is_beginning(bytes: Seq<u8>, stream: Seq<u8>) -> bool {
    bytes.len() <= stream.len() && stream.subrange(0, bytes.len() as int) == bytes
}

/// A message survives the wire whatever pieces the socket delivers it in, and
/// whatever waits and interruptions lie between them: reading from a stream
/// that begins with the frame of `payload`, a receive that succeeds returns
/// `payload` and has consumed its frame and nothing after it; one that has
/// consumed the whole frame has succeeded; and one that fails has not been
/// delivered all of it.
pub proof fn law_message_survives_any_chunking(
    payload: Seq<u8>,
    rest: Seq<u8>,
    transport: Transport,
    now: Moment,
    timeout: TimeSpan,
    events: Seq<ReadEventView>,
)
    requires
        payload.len() <= MAX_MESSAGE_SIZE,
        answers(transport, now, timeout, events),
        is_beginning(delivered(events), frame(payload) + rest),
    ensures
        ({
            let (state, poisoned) = recv_run(transport, now, timeout, events);
            &&& delivered(events).len() <= frame(payload).len()
            &&& delivered(events).len() == frame(payload).len() ==> state == RecvNext::Done(
                Ok(payload),
            )
            &&& state matches RecvNext::Done(Ok(received)) ==> received == payload && delivered(
                events,
            ) == frame(payload) && !poisoned
            &&& state matches RecvNext::Done(Err(err)) ==> {
                &&& err !is MessageTooLarge
                &&& delivered(events).len() < frame(payload).len()
            }
        }),
{
    law_receive_accounts_for_every_byte(transport, now, timeout, events);
    let (state, poisoned) = recv_run(transport, now, timeout, events);
    let bytes = delivered(events);
    let stream = frame(payload) + rest;
    assert(stream =~= prefix_bytes(payload.len()) + (payload + rest));
    law_prefix_round_trip(payload.len(), payload + rest);
    if bytes.len() >= 4 {
        assert(bytes[0] == stream[0]);
        assert(bytes[1] == stream[1]);
        assert(bytes[2] == stream[2]);
        assert(bytes[3] == stream[3]);
        assert(prefix_value(bytes) == payload.len());
    }
    if let RecvNext::Done(Ok(received)) = state {
        law_prefix_round_trip(received.len(), received);
        assert(bytes.len() == 4 + received.len());
        assert(received =~= bytes.subrange(4, bytes.len() as int));
        assert(received.len() == payload.len());
        assert forall|i: int| 0 <= i < payload.len() implies received[i] == payload[i] by {
            assert(received[i] == bytes[4 + i]);
            assert(bytes[4 + i] == stream.subrange(0, bytes.len() as int)[4 + i]);
            assert(stream[4 + i] == payload[i]);
        }
        assert(received =~= payload);
    }
}

/// A receive that fails without poisoning, other than at the end of the stream,
/// has consumed nothing: a later receive on the same receiver still starts at a
/// frame boundary. This is what makes polling an idle channel with short
/// timeouts safe.
pub proof fn law_unpoisoned_failure_is_clean(
    transport: Transport,
    now: Moment,
    timeout: TimeSpan,
    events: Seq<ReadEventView>,
    err: ChannelRecvError,
)
    requires
        answers(transport, now, timeout, events),
        recv_run(transport, now, timeout, events) == (RecvNext::Done(Err(err)), false),
        err !is SenderClosed,
    ensures
        delivered(events).len() == 0,
{
    law_receive_accounts_for_every_byte(transport, now, timeout, events);
}

/// Poison is for good: on a poisoned receiver every receive, with a deadline or
/// without, is over before it has read anything, with the same error.
pub proof fn law_poisoned_receiver_reads_nothing(
    transport: Transport,
    now: Moment,
    timeout: TimeSpan,
)
    ensures
        recv_begin(transport, true, now, timeout) == RecvNext::Done(Err(ChannelRecvError::Desynchronized)),
        blocking_begin(true) == BlockingNext::Done(Err(ChannelRecvError::Desynchronized)),
{
}

/// A peer that is gone ends every receive at once, in the same way on every
/// path: at the end of the stream, or, on a socket, where the peer left unread
/// bytes behind, a receive with a deadline and a blocking one both report that
/// the sender closed, and neither poisons.
pub proof fn law_closed_peer_ends_every_receive(
    op: RecvOpView,
    in_payload: bool,
    reset: SysError,
    gone: IoError,
)
    requires
        op.valid(),
        reset.errno == Errno::ECONNRESET,
        gone.kind == IoErrorKind::UnexpectedEof || (gone.kind == IoErrorKind::ConnectionReset
            && op.read.transport == Transport::Socket),
    ensures
        recv_next(op, ReadEventView::Recv(Ok(Seq::empty()))) == (
            RecvNext::Done(Err::<Seq<u8>, ChannelRecvError>(ChannelRecvError::SenderClosed)),
            false,
        ),
        op.read.transport == Transport::Socket ==> recv_next(op, ReadEventView::Recv(Err(reset)))
            == (
            RecvNext::Done(Err::<Seq<u8>, ChannelRecvError>(ChannelRecvError::SenderClosed)),
            false,
        ),
        blocking_next(op.read.transport, in_payload, Err(gone)) == (
            BlockingNext::Done(Err::<Seq<u8>, ChannelRecvError>(ChannelRecvError::SenderClosed)),
            false,
        ),
{
}

/// The deadline bounds a receive: where the clock has reached it the receive is
/// over with a timeout, and where it has not the receive polls, for less than a
/// millisecond longer than is left. The end of a poll is not the end of the
/// receive.
pub proof fn law_deadline_bounds_the_receive(op: RecvOpView, now: Moment, ready: bool)
    requires
        op.valid(),
    ensures
        now.nanos >= op.deadline.nanos ==> recv_next(op, ReadEventView::Clock(now)).0
            == RecvNext::Done(Err::<Seq<u8>, ChannelRecvError>(ChannelRecvError::Timeout)),
        now.nanos < op.deadline.nanos ==> (recv_next(op, ReadEventView::Clock(now)).0 matches
            RecvNext::Poll(_, timeout_ms) && op.read.transport.least_poll_spec() <= timeout_ms
            && timeout_ms * NANOS_PER_MILLI < op.deadline.nanos - now.nanos + NANOS_PER_MILLI),
        recv_next(op, ReadEventView::Poll(Ok(ready))).0.op() is Some,
        ready ==> recv_next(op, ReadEventView::Poll(Ok(ready))).0 is Recv,
{
    if now.nanos < op.deadline.nanos {
        law_poll_window_bounds(
            TimeSpan { nanos: (op.deadline.nanos - now.nanos) as u128 },
            op.read.transport.least_poll_spec(),
            op.read.max_poll_window_ms,
        );
    }
}

/// What one message sent is what one message received: if a send succeeds and
/// the receiver is delivered all that it wrote, the receiver returns the
/// payload that was sent.
pub proof fn law_sent_message_is_received(
    payload: Seq<u8>,
    first: Result<(), IoError>,
    second: Result<(), IoError>,
    transport: Transport,
    now: Moment,
    timeout: TimeSpan,
    events: Seq<ReadEventView>,
)
    requires
        payload.len() <= usize::MAX,
        send_run(false, payload, first, second).1 is Ok,
        answers(transport, now, timeout, events),
        delivered(events) == send_run(false, payload, first, second).0,
    ensures
        recv_run(transport, now, timeout, events) == (
            RecvNext::Done(Ok::<Seq<u8>, ChannelRecvError>(payload)),
            false,
        ),
{
    crate::channel::sender::law_successful_send_writes_one_frame(false, payload, first, second);
    let stream = frame(payload) + Seq::<u8>::empty();
    assert(stream =~= frame(payload));
    assert(stream.subrange(0, stream.len() as int) =~= stream);
    law_message_survives_any_chunking(payload, Seq::empty(), transport, now, timeout, events);
    law_receive_accounts_for_every_byte(transport, now, timeout, events);
}

/// How a blocking receive ends whose reads both succeed, on the four bytes
/// `head` and the payload read `body`.
pub open spec fn blocking_run(transport: Transport, head: Seq<u8>, body: Seq<u8>) -> Result<
    Seq<u8>,
    ChannelRecvError,
> {
    match blocking_next(transport, false, Ok(head)).0 {
        BlockingNext::Done(result) => result,
        BlockingNext::ReadExact(_, _) => match blocking_next(transport, true, Ok(body)).0 {
            BlockingNext::Done(result) => result,
            BlockingNext::ReadExact(_, _) => arbitrary(),
        },
    }
}

/// A blocking receive returns the payload of the frame at the head of the
/// stream: after the prefix it asks for exactly as many bytes as the payload
/// has.
pub proof fn law_blocking_receive_returns_the_payload(transport: Transport, payload: Seq<u8>)
    requires
        payload.len() <= MAX_MESSAGE_SIZE,
    ensures
        blocking_next(transport, false, Ok::<Seq<u8>, IoError>(prefix_bytes(payload.len()))).0
            == BlockingNext::ReadExact((true, payload.len()), payload.len()),
        blocking_run(transport, prefix_bytes(payload.len()), payload) == Ok::<Seq<u8>, ChannelRecvError>(
            payload,
        ),
{
    law_prefix_round_trip(payload.len(), Seq::empty());
    assert(prefix_bytes(payload.len()) + Seq::<u8>::empty() =~= prefix_bytes(payload.len()));
}

/// The first message of a stream of frames, and the stream after it.
pub open spec fn first_message(stream: Seq<u8>) -> Option<(Seq<u8>, Seq<u8>)> {
    if stream.len() < 4 || prefix_value(stream) > MAX_MESSAGE_SIZE || stream.len() < 4
        + prefix_value(stream) {
        None
    } else {
        let end = 4 + prefix_value(stream) as int;
        Some((stream.subrange(4, end), stream.subrange(end, stream.len() as int)))
    }
}

/// The first `n` messages of a stream of frames, and the stream after them.
pub open spec fn messages(stream: Seq<u8>, n: nat) -> Option<(Seq<Seq<u8>>, Seq<u8>)>
    decreases n,
{
    if n == 0 {
        Some((Seq::empty(), stream))
    } else {
        match first_message(stream) {
            None => None,
            Some((payload, rest)) => match messages(rest, (n - 1) as nat) {
                None => None,
                Some((payloads, rest)) => Some((seq![payload] + payloads, rest)),
            },
        }
    }
}

/// Messages come out in the order and number in which they went in: reading a
/// stream of frames back gives the payloads, and leaves what follows them.
pub proof fn law_messages_come_out_in_order(payloads: Seq<Seq<u8>>, rest: Seq<u8>)
    requires
        forall|i: int| 0 <= i < payloads.len() ==> (#[trigger] payloads[i]).len()
            <= MAX_MESSAGE_SIZE,
    ensures
        messages(frames(payloads) + rest, payloads.len()) == Some((payloads, rest)),
    decreases payloads.len(),
{
    if payloads.len() == 0 {
        assert(frames(payloads) + rest =~= rest);
        assert(payloads =~= Seq::empty());
    } else {
        let tail = payloads.subrange(1, payloads.len() as int);
        let first = payloads[0];
        let after = frames(tail) + rest;
        let stream = frames(payloads) + rest;
        assert(stream =~= prefix_bytes(first.len()) + (first + after));
        law_prefix_round_trip(first.len(), first + after);
        let end = 4 + first.len() as int;
        assert(stream.subrange(4, end) =~= first);
        assert(stream.subrange(end, stream.len() as int) =~= after);
        law_messages_come_out_in_order(tail, rest);
        assert(seq![first] + tail =~= payloads);
    }
}

/// A receive reads the first message of the stream: where it succeeds on bytes
/// of `stream`, it returns the first message, and what it has not consumed is
/// the stream after it. Receiving again and again thus yields the stream's
/// messages.
pub proof fn law_receive_returns_the_first_message(
    stream: Seq<u8>,
    transport: Transport,
    now: Moment,
    timeout: TimeSpan,
    events: Seq<ReadEventView>,
    payload: Seq<u8>,
)
    requires
        answers(transport, now, timeout, events),
        is_beginning(delivered(events), stream),
        recv_run(transport, now, timeout, events).0 == RecvNext::Done(Ok(payload)),
    ensures
        first_message(stream) == Some(
            (payload, stream.subrange(delivered(events).len() as int, stream.len() as int)),
        ),
{
    law_receive_accounts_for_every_byte(transport, now, timeout, events);
    let bytes = delivered(events);
    assert(bytes == frame(payload));
    let rest = stream.subrange(bytes.len() as int, stream.len() as int);
    assert(stream =~= bytes + rest);
    assert(stream =~= prefix_bytes(payload.len()) + (payload + rest));
    law_prefix_round_trip(payload.len(), payload + rest);
    assert(stream.subrange(4, 4 + payload.len() as int) =~= payload);
}

/// A receive is over only for a reason that its last event gives, and fails with
/// the error of that event. A timeout is a reading of the clock that has reached
/// the deadline, and nothing else is one.
pub proof fn law_receive_ends_only_for_a_reason(op: RecvOpView, event: ReadEventView)
    requires
        op.valid(),
        op.read.admits(event),
    ensures
        match recv_next(op, event).0 {
            RecvNext::Done(Ok(_)) => event matches ReadEventView::Recv(Ok(bytes)) && bytes.len() > 0,
            RecvNext::Done(Err(ChannelRecvError::Timeout)) => event matches ReadEventView::Clock(now)
                && now.nanos >= op.deadline.nanos,
            RecvNext::Done(Err(ChannelRecvError::SenderClosed)) => {
                ||| event matches ReadEventView::Recv(Ok(bytes)) && bytes.len() == 0
                ||| event matches ReadEventView::Recv(Err(err)) && err.errno == Errno::ECONNRESET
                    && op.read.transport == Transport::Socket
            },
            RecvNext::Done(Err(ChannelRecvError::MessageTooLarge { size, max })) => event matches
                ReadEventView::Recv(Ok(bytes)) && !op.in_payload && op.read.got.len() + bytes.len()
                == 4 && size > max,
            RecvNext::Done(Err(ChannelRecvError::Io(io))) => {
                ||| event matches ReadEventView::Recv(Err(err)) && err.error == io && err.errno
                    != Errno::EAGAIN && (op.read.transport == Transport::Socket ==> err.errno is Other)
                ||| event matches ReadEventView::Poll(Err(err)) && err.error == io && err.errno
                    != Errno::EINTR
            },
            RecvNext::Done(Err(_)) => false,
            _ => true,
        },
{
}

/// A receive goes on through everything that is no failure, and keeps what has
/// arrived. Where nothing is available it looks at the clock, however many bytes
/// there are already; before the deadline it polls for as long as is left and no
/// longer; when a poll finds something it receives; and a socket is simply read
/// again after an interruption.
pub proof fn law_receive_goes_on(op: RecvOpView, err: SysError, now: Moment, ready: bool, bytes: Seq<u8>)
    requires
        op.valid(),
    ensures
        err.errno == Errno::EAGAIN ==> (recv_next(op, ReadEventView::Recv(Err(err))) matches (
            RecvNext::ReadClock(next),
            false,
        ) && same_bytes(op, next)),
        err.errno == Errno::EINTR && op.read.transport == Transport::Socket ==> (recv_next(
            op,
            ReadEventView::Recv(Err(err)),
        ) matches (RecvNext::Recv(next, max), false) && same_bytes(op, next) && max == op.read.need
            - op.read.got.len()),
        now.nanos < op.deadline.nanos ==> (recv_next(op, ReadEventView::Clock(now)) matches (
            RecvNext::Poll(next, timeout_ms),
            false,
        ) && same_bytes(op, next) && (timeout_ms == POLL_WINDOW_MS || op.deadline.nanos - now.nanos
            < (timeout_ms + 1) * NANOS_PER_MILLI)),
        recv_next(op, ReadEventView::Poll(Ok(true))) matches (RecvNext::Recv(next, max), false)
            && same_bytes(op, next) && max == op.read.need - op.read.got.len(),
        op.read.transport == Transport::Socket ==> recv_next(op, ReadEventView::Poll(Ok(ready))).0
            is Recv,
        recv_next(op, ReadEventView::Poll(Ok(ready))).0.op() matches Some(next) && same_bytes(
            op,
            next,
        ),
        err.errno == Errno::EINTR ==> (recv_next(op, ReadEventView::Poll(Err(err))).0.op() matches
            Some(next) && same_bytes(op, next)),
        0 < bytes.len() < op.read.need - op.read.got.len() ==> (recv_next(
            op,
            ReadEventView::Recv(Ok(bytes)),
        ) matches (RecvNext::Recv(next, max), false) && next.in_payload == op.in_payload
            && next.deadline == op.deadline && next.read.got == op.read.got + bytes && max
            == op.read.need - op.read.got.len() - bytes.len()),
{
}

/// Whether two states of a receive have received the same, and wait for the same
/// bytes until the same moment.
pub open spec fn same_bytes(op: RecvOpView, next: RecvOpView) -> bool {
    &&& next.in_payload == op.in_payload
    &&& next.deadline == op.deadline
    &&& next.read.got == op.read.got
    &&& next.read.need == op.read.need
    &&& next.read.transport == op.read.transport
}

proof fn lemma_receive_keeps_its_deadline(
    transport: Transport,
    now: Moment,
    timeout: TimeSpan,
    events: Seq<ReadEventView>,
)
    requires
        answers(transport, now, timeout, events),
    ensures
        recv_run(transport, now, timeout, events).0.op() matches Some(op) ==> op.deadline
            == deadline_spec(now, timeout) && op.valid(),
    decreases events.len(),
{
    if events.len() > 0 {
        lemma_receive_keeps_its_deadline(transport, now, timeout, events.drop_last());
        law_receive_accounts_for_every_byte(transport, now, timeout, events);
    }
}

/// A receive uses its whole timeout: over every run, it fails with a timeout only
/// where the clock has just been read, and that reading is the whole timeout
/// after the receive began. How many bytes have arrived, how often nothing was
/// available, and how many polls there were play no part in it.
pub proof fn law_receive_uses_its_whole_timeout(
    transport: Transport,
    now: Moment,
    timeout: TimeSpan,
    events: Seq<ReadEventView>,
)
    requires
        answers(transport, now, timeout, events),
        recv_run(transport, now, timeout, events).0 == RecvNext::Done(
            Err::<Seq<u8>, ChannelRecvError>(ChannelRecvError::Timeout),
        ),
    ensures
        events.len() > 0,
        events.last() matches ReadEventView::Clock(t) && t.nanos >= now.nanos && (now.nanos
            + timeout.nanos <= LAST_MOMENT_NANOS ==> t.nanos >= now.nanos + timeout.nanos),
{
    if events.len() > 0 {
        let earlier = events.drop_last();
        lemma_receive_keeps_its_deadline(transport, now, timeout, earlier);
        let op = recv_run(transport, now, timeout, earlier).0.op()->Some_0;
        law_receive_ends_only_for_a_reason(op, events.last());
    }
}

/// A receive on a sound receiver begins by asking for the four bytes of a length,
/// before it looks at any clock: bytes that already wait are received even where
/// there is no time left. Its deadline is the timeout away.
pub proof fn law_receive_begins_with_the_length(
    receiver: &Receiver,
    now: Moment,
    timeout: TimeSpan,
    timed: RecvStep,
    blocking: BlockingStep,
)
    requires
        !receiver.poisoned(),
        call_ensures(Receiver::recv_raw_timeout, (receiver, now, timeout), timed),
        call_ensures(Receiver::read_length_prefixed, (receiver,), blocking),
    ensures
        timed@ matches RecvNext::Recv(op, max) && max == 4 && !op.in_payload && op.read.need == 4
            && op.read.got.len() == 0 && op.read.transport == receiver.transport() && (now.nanos
            + timeout.nanos <= LAST_MOMENT_NANOS ==> op.deadline.nanos == now.nanos + timeout.nanos),
        blocking@ == BlockingNext::ReadExact((false, 4), 4),
{
}

/// A receive poisons its receiver where it fails in the middle of a frame other
/// than at the end of the stream, or on a frame beyond the limit, and nowhere
/// else: an idle timeout, the end of the stream and a message that was received
/// leave it sound. Poison stays.
pub proof fn law_receive_poisons_in_mid_frame_only(
    receiver: &mut Receiver,
    op: RecvOp,
    event: ReadEvent,
    step: RecvStep,
)
    requires
        op@.valid(),
        op@.read.admits(event@),
        call_ensures(Receiver::recv_raw_resume, (receiver, op, event), step),
    ensures
        old(receiver).poisoned() ==> final(receiver).poisoned(),
        final(receiver).transport() == old(receiver).transport(),
        !old(receiver).poisoned() ==> (final(receiver).poisoned() <==> match step@ {
            RecvNext::Done(Err(ChannelRecvError::SenderClosed)) => false,
            RecvNext::Done(Err(ChannelRecvError::MessageTooLarge { size, max })) => true,
            RecvNext::Done(Err(_)) => op@.in_payload || op@.read.got.len() > 0,
            _ => false,
        }),
{
}

/// The poison rule in itself.
pub proof fn law_poison_follows_partial_consumption(
    err: &ChannelRecvError,
    consumed: usize,
    poison: bool,
)
    requires
        call_ensures(poison_after, (err, consumed), poison),
    ensures
        consumed == 0 ==> !poison,
        *err is SenderClosed ==> !poison,
        consumed > 0 && !(*err is SenderClosed) ==> poison,
{
}

/// A blocking receive asks for as many bytes as its length declares, up to one
/// mebibyte, and returns those; a longer message is refused by its length, and
/// poisons. A failed read is the end of the channel where the stream ended, or,
/// on a socket, where the peer left unread bytes behind; anything else is
/// reported as it is, and poisons. Poison stays.
pub proof fn law_blocking_receive_follows_its_reads(
    receiver: &mut Receiver,
    op: BlockingOp,
    read: Result<Vec<u8>, IoError>,
    step: BlockingStep,
)
    requires
        !op@.0 ==> op@.1 == 4,
        read matches Ok(bytes) ==> bytes@.len() == op@.1,
        call_ensures(Receiver::read_length_prefixed_resume, (receiver, op, read), step),
    ensures
        old(receiver).poisoned() ==> final(receiver).poisoned(),
        final(receiver).transport() == old(receiver).transport(),
        read matches Ok(bytes) ==> op@.0 ==> step@ == BlockingNext::Done(
            Ok::<Seq<u8>, ChannelRecvError>(bytes@),
        ) && final(receiver).poisoned() == old(receiver).poisoned(),
        read matches Ok(bytes) ==> !op@.0 && prefix_value(bytes@) <= 1024 * 1024 ==> step@
            == BlockingNext::ReadExact((true, prefix_value(bytes@)), prefix_value(bytes@))
            && final(receiver).poisoned() == old(receiver).poisoned(),
        read matches Ok(bytes) ==> !op@.0 && prefix_value(bytes@) > 1024 * 1024 ==> (step@ matches
            BlockingNext::Done(Err(ChannelRecvError::MessageTooLarge { size, max })) && size
            == prefix_value(bytes@) && max == 1024 * 1024 && final(receiver).poisoned()),
        read matches Err(err) ==> (err.kind == IoErrorKind::UnexpectedEof || (err.kind
            == IoErrorKind::ConnectionReset && old(receiver).transport() == Transport::Socket))
            ==> step@ == BlockingNext::Done(
            Err::<Seq<u8>, ChannelRecvError>(ChannelRecvError::SenderClosed),
        ) && final(receiver).poisoned() == old(receiver).poisoned(),
        read matches Err(err) ==> !(err.kind == IoErrorKind::UnexpectedEof || (err.kind
            == IoErrorKind::ConnectionReset && old(receiver).transport() == Transport::Socket))
            ==> step@ == BlockingNext::Done(
            Err::<Seq<u8>, ChannelRecvError>(ChannelRecvError::Io(err)),
        ) && final(receiver).poisoned(),
{
    if let Ok(bytes) = read {
        if !op@.0 {
            law_prefix_is_canonical(bytes@);
        }
    }
}

/// The end of a stream is the same error on every transport, a reset is one on a
/// socket only, and every other error is kept as it is.
pub proof fn law_only_the_end_of_the_channel_is_renamed(
    transport: Transport,
    err: IoError,
    normalized: ChannelRecvError,
)
    requires
        call_ensures(normalize_blocking_read_err, (transport, err), normalized),
    ensures
        normalized is SenderClosed || normalized == ChannelRecvError::Io(err),
        err.kind == IoErrorKind::UnexpectedEof ==> normalized is SenderClosed,
        err.kind == IoErrorKind::ConnectionReset ==> (normalized is SenderClosed <==> transport
            == Transport::Socket),
        err.kind != IoErrorKind::UnexpectedEof && err.kind != IoErrorKind::ConnectionReset
            ==> normalized == ChannelRecvError::Io(err),
{
}

/// What a message is decoded to is what is received; a message that cannot be
/// decoded is an error of its own.
pub proof fn law_decoding_is_passed_on<T>(
    outcome: Result<T, CodecError>,
    result: Result<T, ChannelRecvError>,
)
    requires
        call_ensures(decoded::<T>, (outcome,), result),
    ensures
        outcome matches Ok(message) ==> result == Ok::<T, ChannelRecvError>(message),
        outcome matches Err(err) ==> (result matches Err(ChannelRecvError::Decode(e)) && e == err),
{
}

/// A channel takes whatever it is handed: every message, of any size and however
/// its encoding went, every timeout, and every answer to a step of its own.
pub proof fn law_channel_takes_every_call(
    sender: &Sender,
    receiver: &Receiver,
    writing: &mut Sender,
    reading: &mut Receiver,
    encoded: Result<Vec<u8>, CodecError>,
    bytes: Vec<u8>,
    now: Moment,
    timeout: TimeSpan,
    sending: SendOp,
    written: Result<(), IoError>,
    timed: TimedSend,
    wrote: WriteEvent,
    receiving: RecvOp,
    event: ReadEvent,
    blocking: BlockingOp,
    read: Result<Vec<u8>, IoError>,
    err: &ChannelRecvError,
    len: u32,
    slice: &[u8],
)
    ensures
        call_requires(Sender::send, (sender, encoded)),
        call_requires(Sender::send_raw, (sender, bytes)),
        call_requires(Sender::send_raw_with_timeout, (sender, bytes, now, timeout)),
        call_requires(Sender::written, (writing, sending, written)),
        timed@.valid() && timed@.admits(wrote) ==> call_requires(
            Sender::send_raw_with_timeout_resume,
            (writing, timed, wrote),
        ),
        timed@.valid() ==> call_requires(TimedSend::left, (&timed,)),
        call_requires(Receiver::recv_raw_timeout, (receiver, now, timeout)),
        call_requires(Receiver::read_length_prefixed, (receiver,)),
        receiving@.valid() && receiving@.read.transport == old(reading).transport()
            && receiving@.read.admits(event@) ==> call_requires(
            Receiver::recv_raw_resume,
            (reading, receiving, event),
        ),
        (!blocking@.0 ==> blocking@.1 == 4) && (read matches Ok(b) ==> b@.len() == blocking@.1)
            ==> call_requires(Receiver::read_length_prefixed_resume, (reading, blocking, read)),
        call_requires(poison_after, (err, bytes@.len() as usize)),
        call_requires(prefix_of, (len,)),
        slice@.len() >= 4 ==> call_requires(declared_len, (slice,)),
{
}

/// Whether `event` is an answer to `step`, whatever it says: a receive returns no
/// more than it was given room for.
pub open spec fn answers_step(step: RecvStep, op: RecvOp, event: ReadEventView) -> bool {
    match step {
        RecvStep::Recv { op: o, max } => o == op && (event matches ReadEventView::Recv(received) && (
        received matches Ok(bytes) ==> bytes.len() <= max)),
        RecvStep::ReadClock { op: o } => o == op && event is Clock,
        RecvStep::Poll { op: o, timeout_ms } => o == op && event is Poll,
        RecvStep::Done(_) => false,
    }
}

/// A receive takes every answer to its steps, from the first to the last,
/// whatever the answer says: there is no way to get stuck.
pub proof fn law_receive_takes_every_answer(
    receiver: &Receiver,
    now: Moment,
    timeout: TimeSpan,
    first: RecvStep,
    reading: &mut Receiver,
    op: RecvOp,
    event: ReadEvent,
    next: RecvStep,
    later: &mut Receiver,
    next_op: RecvOp,
    next_event: ReadEvent,
)
    requires
        call_ensures(Receiver::recv_raw_timeout, (receiver, now, timeout), first),
        old(reading).transport() == receiver.transport(),
        old(later).transport() == final(reading).transport(),
    ensures
        answers_step(first, op, event@) ==> call_requires(
            Receiver::recv_raw_resume,
            (reading, op, event),
        ),
        call_ensures(Receiver::recv_raw_resume, (reading, op, event), next) && answers_step(next, next_op, next_event@) ==> call_requires(
            Receiver::recv_raw_resume,
            (later, next_op, next_event),
        ),
{
}

/// A blocking receive takes every answer to its two reads.
pub proof fn law_blocking_receive_takes_every_answer(
    receiver: &Receiver,
    first: BlockingStep,
    reading: &mut Receiver,
    op: BlockingOp,
    len: usize,
    read: Result<Vec<u8>, IoError>,
    next: BlockingStep,
    later: &mut Receiver,
    next_op: BlockingOp,
    next_len: usize,
    next_read: Result<Vec<u8>, IoError>,
)
    requires
        call_ensures(Receiver::read_length_prefixed, (receiver,), first),
        read matches Ok(bytes) ==> bytes@.len() == len,
        next_read matches Ok(bytes) ==> bytes@.len() == next_len,
    ensures
        first == (BlockingStep::ReadExact { op, len }) ==> call_requires(
            Receiver::read_length_prefixed_resume,
            (reading, op, read),
        ),
        call_ensures(Receiver::read_length_prefixed_resume, (reading, op, read), next) && next == (BlockingStep::ReadExact { op: next_op, len: next_len }) ==> call_requires(
            Receiver::read_length_prefixed_resume,
            (later, next_op, next_read),
        ),
{
}

} // verus!
