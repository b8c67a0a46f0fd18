//! The write half of a channel.

use vstd::prelude::*;

use crate::channel::frame::{
    law_prefix_round_trip, prefix_bytes, prefix_of, prefix_value, MAX_MESSAGE_SIZE,
};
use crate::channel::timed_send::{timed_send_begin, WriteNext};
use crate::error::{ChannelSendError, CodecError, IoError};
use crate::time::{Moment, TimeSpan};

verus! {

/// The write half of a channel: whether it may still be written to.
#[derive(Debug)]
pub struct Sender {
    poisoned: bool,
}

/// A frame that is being written.
#[derive(Debug)]
pub enum SendOp {
    /// The length prefix is being written; this payload follows it.
    Prefix { payload: Vec<u8> },
    /// The payload is being written.
    Payload,
}

/// What the owner of a sender has to do next.
#[derive(Debug)]
pub enum SendStep {
    /// Write all of `bytes`, blocking, and hand the result back with `op`.
    Write { op: SendOp, bytes: Vec<u8> },
    /// The send is over.
    Done(Result<(), ChannelSendError>),
}

/// What a send does next, as contracts see it.
pub enum SendNext {
    /// Write these bytes; then, unless it is `None`, write that payload.
    Write(Seq<u8>, Option<Seq<u8>>),
    /// The send is over.
    Done(Result<(), ChannelSendError>),
}

impl View for SendOp {
    type V = Option<Seq<u8>>;

    /// The payload that is still to be written after the current write.
    open spec fn view(&self) -> Option<Seq<u8>> {
        match self {
            SendOp::Prefix { payload } => Some(payload@),
            SendOp::Payload => None,
        }
    }
}

impl View for SendStep {
    type V = SendNext;

    open spec fn view(&self) -> SendNext {
        match self {
            SendStep::Write { op, bytes } => SendNext::Write(bytes@, op@),
            SendStep::Done(result) => SendNext::Done(*result),
        }
    }
}

/// How a send of `payload` begins. A poisoned sender refuses everything, an
/// oversized payload included, and an oversized payload is never written.
pub open spec fn send_begin(poisoned: bool, payload: Seq<u8>) -> SendNext {
    if poisoned {
        SendNext::Done(Err(ChannelSendError::Desynchronized))
    } else if payload.len() > MAX_MESSAGE_SIZE {
        SendNext::Done(
            Err(
                ChannelSendError::MessageTooLarge {
                    size: payload.len() as usize,
                    max: MAX_MESSAGE_SIZE,
                },
            ),
        )
    } else {
        SendNext::Write(prefix_bytes(payload.len()), Some(payload))
    }
}

/// An encoding as a sequence, or the error in its place.
pub open spec fn encoded_view(encoded: Result<Vec<u8>, CodecError>) -> Result<
    Seq<u8>,
    CodecError,
> {
    match encoded {
        Ok(bytes) => Ok(bytes@),
        Err(err) => Err(err),
    }
}

/// How a send of a message begins, given how its encoding went. A poisoned
/// sender refuses everything, a message that could not be encoded included.
pub open spec fn send_encoded_begin(poisoned: bool, encoded: Result<Seq<u8>, CodecError>) -> SendNext {
    match encoded {
        Ok(payload) => send_begin(poisoned, payload),
        Err(err) => if poisoned {
            SendNext::Done(Err(ChannelSendError::Desynchronized))
        } else {
            SendNext::Done(Err(ChannelSendError::Encode(err)))
        },
    }
}

/// How a send goes on after a write, with `left` still to be written.
pub open spec fn send_next(left: Option<Seq<u8>>, written: Result<(), IoError>) -> SendNext {
    match written {
        Err(err) => SendNext::Done(Err(ChannelSendError::Io(err))),
        Ok(_) => match left {
            Some(payload) => SendNext::Write(payload, None),
            None => SendNext::Done(Ok(())),
        },
    }
}

impl Sender {
    /// Whether a failed write has left the stream in the middle of a frame.
    pub closed spec fn poisoned(&self) -> bool {
        self.poisoned
    }

    /// The write half of a fresh channel.
    pub fn new() -> (sender: Sender)
        ensures
            !sender.poisoned(),
    {
        Sender { poisoned: false }
    }

    /// Whether every further send will fail without touching the channel.
    pub fn is_poisoned(&self) -> (poisoned: bool)
        ensures
            poisoned == self.poisoned(),
    {
        self.poisoned
    }

    /// Give the sender up.
    pub(crate) fn poison(&mut self)
        ensures
            final(self).poisoned(),
    {
        self.poisoned = true;
    }

    /// Begin to send one typed message, given how its encoding went. A message
    /// that could not be encoded is not written, and leaves a sound sender
    /// usable; a poisoned sender reports that it is poisoned, whatever the
    /// message.
    pub fn send(&self, encoded: Result<Vec<u8>, CodecError>) -> (step: SendStep)
        ensures
            step@ == send_encoded_begin(self.poisoned(), encoded_view(encoded)),
    {
        match encoded {
            Ok(bytes) => self.write_length_prefixed(bytes),
            Err(err) => if self.poisoned {
                SendStep::Done(Err(ChannelSendError::Desynchronized))
            } else {
                SendStep::Done(Err(ChannelSendError::Encode(err)))
            },
        }
    }

    /// Begin to send raw bytes as one frame.
    pub fn send_raw(&self, bytes: Vec<u8>) -> (step: SendStep)
        ensures
            step@ == send_begin(self.poisoned(), bytes@),
    {
        self.write_length_prefixed(bytes)
    }

    /// The framing shared by `send` and `send_raw`: the length prefix is
    /// written first, then the payload.
    pub fn write_length_prefixed(&self, bytes: Vec<u8>) -> (step: SendStep)
        ensures
            step@ == send_begin(self.poisoned(), bytes@),
    {
        if self.poisoned {
            return SendStep::Done(Err(ChannelSendError::Desynchronized));
        }
        if bytes.len() > MAX_MESSAGE_SIZE {
            return SendStep::Done(
                Err(
                    ChannelSendError::MessageTooLarge { size: bytes.len(), max: MAX_MESSAGE_SIZE },
                ),
            );
        }
        let prefix = prefix_of(bytes.len() as u32);
        let mut head: Vec<u8> = Vec::new();
        head.extend_from_slice(prefix.as_slice());
        assert(head@ =~= prefix_bytes(bytes@.len()));
        SendStep::Write { op: SendOp::Prefix { payload: bytes }, bytes: head }
    }

    /// Go on with a send after a write. How much of a failed write has landed
    /// cannot be known, so any failure poisons.
    pub fn written(&mut self, op: SendOp, written: Result<(), IoError>) -> (step: SendStep)
        ensures
            step@ == send_next(op@, written),
            final(self).poisoned() == (old(self).poisoned() || written is Err),
    {
        match written {
            Err(err) => {
                self.poisoned = true;
                SendStep::Done(Err(ChannelSendError::Io(err)))
            },
            Ok(()) => match op {
                SendOp::Prefix { payload } => SendStep::Write {
                    op: SendOp::Payload,
                    bytes: payload,
                },
                SendOp::Payload => SendStep::Done(Ok(())),
            },
        }
    }
}

/// The writes of a send, and how it ended: `first` and `second` are the results
/// of the two writes, of which a send makes as many as it gets to.
pub open spec fn send_run(
    poisoned: bool,
    payload: Seq<u8>,
    first: Result<(), IoError>,
    second: Result<(), IoError>,
) -> (Seq<u8>, Result<(), ChannelSendError>) {
    match send_begin(poisoned, payload) {
        SendNext::Done(result) => (Seq::empty(), result),
        SendNext::Write(head, left) => match send_next(left, first) {
            SendNext::Done(result) => (head, result),
            SendNext::Write(body, left) => match send_next(left, second) {
                SendNext::Done(result) => (head + body, result),
                SendNext::Write(_, _) => arbitrary(),
            },
        },
    }
}

/// A send that succeeds has handed exactly one frame to the socket, that of its
/// payload; and a send on a sound sender succeeds where the payload is within
/// the limit and both writes succeed, and nowhere else.
pub proof fn law_successful_send_writes_one_frame(
    poisoned: bool,
    payload: Seq<u8>,
    first: Result<(), IoError>,
    second: Result<(), IoError>,
)
    requires
        payload.len() <= usize::MAX,
    ensures
        send_run(poisoned, payload, first, second).1 is Ok ==> send_run(
            poisoned,
            payload,
            first,
            second,
        ).0 == crate::channel::frame::frame(payload),
        send_run(poisoned, payload, first, second).1 is Ok <==> !poisoned && payload.len()
            <= MAX_MESSAGE_SIZE && first is Ok && second is Ok,
{
}

/// Every send on a poisoned sender fails with the same error and writes nothing,
/// whatever the message is, however its encoding went, and with or without a
/// deadline.
pub proof fn law_poisoned_sender_refuses_everything(
    encoded: Result<Seq<u8>, CodecError>,
    payload: Seq<u8>,
    now: Moment,
    timeout: TimeSpan,
)
    ensures
        send_encoded_begin(true, encoded) == SendNext::Done(Err(ChannelSendError::Desynchronized)),
        send_begin(true, payload) == SendNext::Done(Err(ChannelSendError::Desynchronized)),
        timed_send_begin(true, payload, now, timeout) == WriteNext::Done(
            Err(ChannelSendError::Desynchronized),
        ),
{
}

/// A send that is refused, for poison or for size, writes nothing.
pub proof fn law_refused_send_writes_nothing(
    poisoned: bool,
    payload: Seq<u8>,
    first: Result<(), IoError>,
    second: Result<(), IoError>,
)
    requires
        poisoned || payload.len() > MAX_MESSAGE_SIZE,
    ensures
        send_run(poisoned, payload, first, second).0.len() == 0,
        send_run(poisoned, payload, first, second).1 is Err,
{
}

/// A send that fails reports the write that failed, and has written nothing
/// after it.
pub proof fn law_failed_send_reports_its_write(
    payload: Seq<u8>,
    err: IoError,
    second: Result<(), IoError>,
)
    requires
        payload.len() <= MAX_MESSAGE_SIZE,
    ensures
        send_run(false, payload, Err(err), second) == (
            prefix_bytes(payload.len()),
            Err::<(), ChannelSendError>(ChannelSendError::Io(err)),
        ),
        send_run(false, payload, Ok(()), Err(err)) == (
            prefix_bytes(payload.len()) + payload,
            Err::<(), ChannelSendError>(ChannelSendError::Io(err)),
        ),
{
}

/// A sound sender takes every payload of up to one mebibyte, and refuses a
/// longer one by naming its size and the limit. A message that could not be
/// encoded is refused with that error; one that could is sent as its bytes are.
pub proof fn law_limit_of_a_message(
    sender: &Sender,
    bytes: Vec<u8>,
    raw: SendStep,
    typed: SendStep,
    err: CodecError,
    refused: SendStep,
)
    requires
        !sender.poisoned(),
        call_ensures(Sender::send_raw, (sender, bytes), raw),
        call_ensures(Sender::send, (sender, Ok::<Vec<u8>, CodecError>(bytes)), typed),
        call_ensures(Sender::send, (sender, Err::<Vec<u8>, CodecError>(err)), refused),
    ensures
        typed@ == raw@,
        bytes@.len() <= 1024 * 1024 ==> (raw@ matches SendNext::Write(head, Some(payload)) && payload
            == bytes@ && head.len() == 4 && prefix_value(head) == bytes@.len()),
        bytes@.len() > 1024 * 1024 ==> (raw@ matches SendNext::Done(
            Err(ChannelSendError::MessageTooLarge { size, max }),
        ) && size == bytes@.len() && max == 1024 * 1024),
        refused@ == SendNext::Done(Err(ChannelSendError::Encode(err))),
{
    assert(bytes.len() == bytes@.len());
    if bytes@.len() <= 1024 * 1024 {
        law_prefix_round_trip(bytes@.len(), Seq::empty());
        assert(prefix_bytes(bytes@.len()) + Seq::<u8>::empty() =~= prefix_bytes(bytes@.len()));
    }
}

/// A sender is poisoned by a write that fails and by nothing else, and poison
/// stays. A write that succeeds is followed by what is still to be written, and
/// the send succeeds with the last one.
pub proof fn law_failed_write_poisons_for_good(
    sender: &mut Sender,
    op: SendOp,
    written: Result<(), IoError>,
    step: SendStep,
)
    requires
        call_ensures(Sender::written, (sender, op, written), step),
    ensures
        old(sender).poisoned() ==> final(sender).poisoned(),
        !old(sender).poisoned() ==> (final(sender).poisoned() <==> written is Err),
        written matches Err(err) ==> step@ == SendNext::Done(Err(ChannelSendError::Io(err))),
        written is Ok ==> match op {
            SendOp::Prefix { payload } => step@ == SendNext::Write(payload@, None),
            SendOp::Payload => step@ == SendNext::Done(Ok::<(), ChannelSendError>(())),
        },
{
}

} // verus!
