//! The two ends of a daemon's channel: requests one way, responses the other.

use vstd::prelude::*;

use crate::channel::frame::{law_prefix_round_trip, prefix_bytes, prefix_value};
use crate::channel::receiver::{
    blocking_begin, recv_begin, BlockingNext, BlockingStep, Receiver, RecvNext, RecvStep,
};
use crate::channel::sender::{
    encoded_view, send_begin, send_encoded_begin, SendNext, SendStep, Sender,
};
use crate::channel::timed_read::Transport;
use crate::error::{ChannelRecvError, ChannelSendError, CodecError};
use crate::time::{Moment, TimeSpan, LAST_MOMENT_NANOS};

verus! {

/// The parent's end: requests go out and responses come in.
#[derive(Debug)]
pub struct RpcClient {
    pub sender: Sender,
    pub receiver: Receiver,
}

/// The daemon's end: requests come in and responses go out.
#[derive(Debug)]
pub struct RpcServer {
    pub sender: Sender,
    pub receiver: Receiver,
}

impl RpcClient {
    /// The parent's end of a fresh channel on a socket.
    pub fn new() -> (client: RpcClient)
        ensures
            !client.sender.poisoned(),
            !client.receiver.poisoned(),
            client.receiver.transport() == Transport::Socket,
    {
        RpcClient { sender: Sender::new(), receiver: Receiver::new() }
    }

    /// Begin to send a request, given how its encoding went.
    pub fn send_request(&self, encoded: Result<Vec<u8>, CodecError>) -> (step: SendStep)
        ensures
            step@ == send_encoded_begin(self.sender.poisoned(), encoded_view(encoded)),
    {
        self.sender.send(encoded)
    }

    /// Begin to receive a response, bounded by `timeout` from `now` on.
    pub fn recv_response(&self, now: Moment, timeout: TimeSpan) -> (step: RecvStep)
        ensures
            step@ == recv_begin(
                self.receiver.transport(),
                self.receiver.poisoned(),
                now,
                timeout,
            ),
            step@.valid(),
    {
        self.receiver.recv_raw_timeout(now, timeout)
    }

    /// Begin to receive a response, for as long as it takes.
    pub fn recv_response_blocking(&self) -> (step: BlockingStep)
        ensures
            step@ == blocking_begin(self.receiver.poisoned()),
    {
        self.receiver.read_length_prefixed()
    }

    /// Begin to receive the build-id handshake, which is the first frame that
    /// comes in, bounded by `timeout` from `now` on.
    pub fn recv_raw_handshake_with_timeout(&self, now: Moment, timeout: TimeSpan) -> (step:
        RecvStep)
        ensures
            step@ == recv_begin(
                self.receiver.transport(),
                self.receiver.poisoned(),
                now,
                timeout,
            ),
            step@.valid(),
    {
        self.receiver.recv_raw_timeout(now, timeout)
    }
}

impl RpcServer {
    /// The daemon's end of a fresh channel on a socket.
    pub fn new() -> (server: RpcServer)
        ensures
            !server.sender.poisoned(),
            !server.receiver.poisoned(),
            server.receiver.transport() == Transport::Socket,
    {
        RpcServer { sender: Sender::new(), receiver: Receiver::new() }
    }

    /// Begin to receive the next request, for as long as it takes.
    pub fn next_request(&self) -> (step: BlockingStep)
        ensures
            step@ == blocking_begin(self.receiver.poisoned()),
    {
        self.receiver.read_length_prefixed()
    }

    /// Begin to send a response, given how its encoding went.
    pub fn send_response(&self, encoded: Result<Vec<u8>, CodecError>) -> (step: SendStep)
        ensures
            step@ == send_encoded_begin(self.sender.poisoned(), encoded_view(encoded)),
    {
        self.sender.send(encoded)
    }

    /// Begin to send the build-id handshake, which is the first frame that goes
    /// out.
    pub fn send_raw_handshake(&self, bytes: Vec<u8>) -> (step: SendStep)
        ensures
            step@ == send_begin(self.sender.poisoned(), bytes@),
    {
        self.sender.send_raw(bytes)
    }
}

/// The two ends of a channel speak the same protocol. What either end sends on a
/// sound channel is the length of its bytes in four bytes, and then the bytes,
/// and what either end receives begins with such a length; a receive with a
/// timeout has exactly that much time. A handshake travels in the same way.
pub proof fn law_both_ends_speak_the_same_protocol(
    client: &RpcClient,
    server: &RpcServer,
    bytes: Vec<u8>,
    now: Moment,
    timeout: TimeSpan,
    request: SendStep,
    response: SendStep,
    handshake: SendStep,
    next_request: BlockingStep,
    next_response: BlockingStep,
    timed_response: RecvStep,
    timed_handshake: RecvStep,
)
    requires
        !client.sender.poisoned() && !client.receiver.poisoned(),
        !server.sender.poisoned() && !server.receiver.poisoned(),
        bytes@.len() <= 1024 * 1024,
        now.nanos + timeout.nanos <= LAST_MOMENT_NANOS,
        call_ensures(RpcClient::send_request, (client, Ok::<Vec<u8>, CodecError>(bytes)), request),
        call_ensures(RpcServer::send_response, (server, Ok::<Vec<u8>, CodecError>(bytes)), response),
        call_ensures(RpcServer::send_raw_handshake, (server, bytes), handshake),
        call_ensures(RpcServer::next_request, (server,), next_request),
        call_ensures(RpcClient::recv_response_blocking, (client,), next_response),
        call_ensures(RpcClient::recv_response, (client, now, timeout), timed_response),
        call_ensures(
            RpcClient::recv_raw_handshake_with_timeout,
            (client, now, timeout),
            timed_handshake,
        ),
    ensures
        request@ matches SendNext::Write(head, Some(payload)) && head.len() == 4 && prefix_value(head)
            == bytes@.len() && payload == bytes@,
        response@ == request@,
        handshake@ == request@,
        next_request@ == BlockingNext::ReadExact((false, 4), 4),
        next_response@ == next_request@,
        timed_response@ matches RecvNext::Recv(op, max) && max == 4 && !op.in_payload
            && op.read.got.len() == 0 && op.read.need == 4 && op.deadline.nanos == now.nanos
            + timeout.nanos,
        timed_handshake@ == timed_response@,
{
    law_prefix_round_trip(bytes@.len(), Seq::empty());
    assert(prefix_bytes(bytes@.len()) + Seq::<u8>::empty() =~= prefix_bytes(bytes@.len()));
}

/// An end that is poisoned says so on every call, whatever it is handed, and
/// does nothing else.
pub proof fn law_poisoned_ends_refuse_every_call(
    client: &RpcClient,
    server: &RpcServer,
    encoded: Result<Vec<u8>, CodecError>,
    now: Moment,
    timeout: TimeSpan,
    request: SendStep,
    response: SendStep,
    next_request: BlockingStep,
    next_response: BlockingStep,
    timed_response: RecvStep,
)
    requires
        call_ensures(RpcClient::send_request, (client, encoded), request),
        call_ensures(RpcServer::send_response, (server, encoded), response),
        call_ensures(RpcServer::next_request, (server,), next_request),
        call_ensures(RpcClient::recv_response_blocking, (client,), next_response),
        call_ensures(RpcClient::recv_response, (client, now, timeout), timed_response),
    ensures
        client.sender.poisoned() ==> request@ == SendNext::Done(
            Err(ChannelSendError::Desynchronized),
        ),
        server.sender.poisoned() ==> response@ == SendNext::Done(
            Err(ChannelSendError::Desynchronized),
        ),
        server.receiver.poisoned() ==> next_request@ == BlockingNext::Done(
            Err(ChannelRecvError::Desynchronized),
        ),
        client.receiver.poisoned() ==> next_response@ == BlockingNext::Done(
            Err(ChannelRecvError::Desynchronized),
        ) && timed_response@ == RecvNext::Done(Err(ChannelRecvError::Desynchronized)),
{
}

/// Fresh ends are sound: nothing is refused before anything has gone wrong.
pub proof fn law_fresh_ends_are_sound(
    client: RpcClient,
    server: RpcServer,
    sender: Sender,
    receiver: Receiver,
    on_pipe: Receiver,
)
    requires
        call_ensures(RpcClient::new, (), client),
        call_ensures(RpcServer::new, (), server),
        call_ensures(Sender::new, (), sender),
        call_ensures(Receiver::new, (), receiver),
        call_ensures(Receiver::new_pipe, (), on_pipe),
    ensures
        !client.sender.poisoned() && !client.receiver.poisoned(),
        !server.sender.poisoned() && !server.receiver.poisoned(),
        !sender.poisoned() && !receiver.poisoned() && !on_pipe.poisoned(),
        client.receiver.transport() == Transport::Socket,
        server.receiver.transport() == Transport::Socket,
        receiver.transport() == Transport::Socket,
        on_pipe.transport() == Transport::Pipe,
{
}

/// Both ends take every call, whatever they are handed.
pub proof fn law_both_ends_take_every_call(
    client: &RpcClient,
    server: &RpcServer,
    encoded: Result<Vec<u8>, CodecError>,
    bytes: Vec<u8>,
    now: Moment,
    timeout: TimeSpan,
)
    ensures
        call_requires(RpcClient::send_request, (client, encoded)),
        call_requires(RpcClient::recv_response, (client, now, timeout)),
        call_requires(RpcClient::recv_response_blocking, (client,)),
        call_requires(RpcClient::recv_raw_handshake_with_timeout, (client, now, timeout)),
        call_requires(RpcServer::next_request, (server,)),
        call_requires(RpcServer::send_response, (server, encoded)),
        call_requires(RpcServer::send_raw_handshake, (server, bytes)),
{
}

} // verus!
