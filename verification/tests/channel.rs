use std::collections::VecDeque;

use daemonizable::app::bootstrap::{
    handshake_and_ship_bootstrap, recv_raw_bootstrap_ack, send_raw_bootstrap_ack,
    BootstrapAckError, BootstrapEvent, BootstrapStep,
};
use daemonizable::channel::frame::{declared_len, prefix_of, MAX_MESSAGE_SIZE};
use daemonizable::channel::receiver::{
    decoded, normalize_blocking_read_err, poison_after, BlockingStep, Receiver, RecvStep,
};
use daemonizable::channel::sender::{SendStep, Sender};
use daemonizable::channel::timed_read::{read_exact_with_timeout, ReadEvent, ReadStep, Transport};
use daemonizable::channel::timed_send::{TimedSendStep, WriteEvent};
use daemonizable::error::{
    ChannelCreateError, ChannelRecvError, ChannelSendError, CodecError, Errno, HandshakeError,
    IoError, IoErrorKind, SysError,
};
use daemonizable::rpc::{RpcClient, RpcServer};
use daemonizable::spawn::handshake::{
    send_handshake, validate_handshake_and_build_client, HANDSHAKE_TIMEOUT_SECS,
};
use daemonizable::time::{deadline_from, poll_timeout_ms, Moment, TimeSpan};

fn io_error(kind: IoErrorKind, message: &str) -> IoError {
    IoError {
        kind,
        raw_os_error: None,
        message: message.to_string(),
        debug: format!("Custom {{ kind: {kind:?}, error: {message:?} }}"),
    }
}

fn codec_error(err: postcard::Error) -> CodecError {
    CodecError { message: err.to_string(), debug: format!("{err:?}") }
}

fn no_length() -> CodecError {
    codec_error(postcard::Error::SerializeSeqLengthUnknown)
}

fn sys_error(errno: Errno, message: &str) -> SysError {
    SysError { errno, error: io_error(IoErrorKind::Other, message) }
}

/// One direction of a socket, with a clock of its own that only polls advance.
struct Wire {
    buf: VecDeque<u8>,
    writer_open: bool,
    reader_open: bool,
    now: Moment,
    /// The most bytes that one receive returns.
    chunk: usize,
    /// Whether every second receive is interrupted.
    interrupts: bool,
    receives: usize,
    /// The most bytes that a non-blocking write leaves in the buffer.
    capacity: usize,
}

impl Wire {
    fn new() -> Wire {
        Wire {
            buf: VecDeque::new(),
            writer_open: true,
            reader_open: true,
            now: Moment { nanos: 1_000_000_000 },
            chunk: usize::MAX,
            interrupts: false,
            receives: 0,
            capacity: 65_536,
        }
    }

    fn raw_write(&mut self, bytes: &[u8]) {
        self.buf.extend(bytes.iter().copied());
    }

    fn write_all(&mut self, bytes: &[u8]) -> Result<(), IoError> {
        if !self.reader_open {
            return Err(io_error(IoErrorKind::BrokenPipe, "Broken pipe (os error 32)"));
        }
        self.raw_write(bytes);
        Ok(())
    }

    fn write_now(&mut self, bytes: &[u8]) -> Result<usize, SysError> {
        if !self.reader_open {
            return Err(sys_error(Errno::Other(32), "Broken pipe (os error 32)"));
        }
        let n = bytes.len().min(self.capacity - self.buf.len());
        if n == 0 {
            return Err(sys_error(Errno::EAGAIN, "would block"));
        }
        self.raw_write(&bytes[..n]);
        Ok(n)
    }

    fn receive(&mut self, max: usize) -> Result<Vec<u8>, SysError> {
        self.receives += 1;
        if self.interrupts && self.receives % 2 == 1 {
            return Err(sys_error(Errno::EINTR, "interrupted"));
        }
        if self.buf.is_empty() {
            if self.writer_open {
                return Err(sys_error(Errno::EAGAIN, "would block"));
            }
            return Ok(Vec::new());
        }
        let n = max.min(self.chunk).min(self.buf.len());
        Ok(self.buf.drain(..n).collect())
    }

    fn read_exact(&mut self, len: usize) -> Result<Vec<u8>, IoError> {
        if self.buf.len() < len {
            assert!(!self.writer_open, "a blocking read would hang");
            self.buf.clear();
            return Err(io_error(IoErrorKind::UnexpectedEof, "failed to fill whole buffer"));
        }
        Ok(self.buf.drain(..len).collect())
    }
}

fn finish_send(sender: &mut Sender, wire: &mut Wire, step: SendStep) -> Result<(), ChannelSendError> {
    let mut step = step;
    loop {
        match step {
            SendStep::Write { op, bytes } => {
                let written = wire.write_all(&bytes);
                step = sender.written(op, written);
            }
            SendStep::Done(result) => return result,
        }
    }
}

fn send_raw(sender: &mut Sender, wire: &mut Wire, bytes: &[u8]) -> Result<(), ChannelSendError> {
    let step = sender.send_raw(bytes.to_vec());
    finish_send(sender, wire, step)
}

fn send_raw_with_timeout(
    sender: &mut Sender,
    wire: &mut Wire,
    bytes: &[u8],
    timeout: TimeSpan,
) -> Result<(), ChannelSendError> {
    let mut step = sender.send_raw_with_timeout(bytes.to_vec(), wire.now, timeout);
    loop {
        match step {
            TimedSendStep::Write { op } => {
                let wrote = wire.write_now(op.left());
                step = sender.send_raw_with_timeout_resume(op, WriteEvent::Wrote(wrote));
            }
            TimedSendStep::ReadClock { op } => {
                step = sender.send_raw_with_timeout_resume(op, WriteEvent::Clock(wire.now));
            }
            TimedSendStep::Poll { op, timeout_ms } => {
                wire.now.nanos += timeout_ms as u128 * 1_000_000;
                step = sender.send_raw_with_timeout_resume(op, WriteEvent::Poll(Ok(())));
            }
            TimedSendStep::Done(result) => return result,
        }
    }
}

fn encode<T: serde::Serialize>(value: &T) -> Result<Vec<u8>, CodecError> {
    postcard::to_stdvec(value).map_err(codec_error)
}

fn decode<T: serde::de::DeserializeOwned>(bytes: &[u8]) -> Result<T, CodecError> {
    postcard::from_bytes(bytes).map_err(codec_error)
}

fn send<T: serde::Serialize>(
    sender: &mut Sender,
    wire: &mut Wire,
    value: &T,
) -> Result<(), ChannelSendError> {
    let step = sender.send(encode(value));
    finish_send(sender, wire, step)
}

fn finish_recv(receiver: &mut Receiver, wire: &mut Wire, step: RecvStep) -> Result<Vec<u8>, ChannelRecvError> {
    let mut step = step;
    loop {
        match step {
            RecvStep::Recv { op, max } => {
                let received = wire.receive(max);
                step = receiver.recv_raw_resume(op, ReadEvent::Recv(received));
            }
            RecvStep::ReadClock { op } => {
                step = receiver.recv_raw_resume(op, ReadEvent::Clock(wire.now));
            }
            RecvStep::Poll { op, timeout_ms } => {
                wire.now.nanos += timeout_ms as u128 * 1_000_000;
                let ready = !wire.buf.is_empty() || !wire.writer_open;
                step = receiver.recv_raw_resume(op, ReadEvent::Poll(Ok(ready)));
            }
            RecvStep::Done(result) => return result,
        }
    }
}

fn recv_raw_timeout(
    receiver: &mut Receiver,
    wire: &mut Wire,
    timeout: TimeSpan,
) -> Result<Vec<u8>, ChannelRecvError> {
    let step = receiver.recv_raw_timeout(wire.now, timeout);
    finish_recv(receiver, wire, step)
}

fn recv_timeout<T: serde::de::DeserializeOwned>(
    receiver: &mut Receiver,
    wire: &mut Wire,
    timeout: TimeSpan,
) -> Result<T, ChannelRecvError> {
    let bytes = recv_raw_timeout(receiver, wire, timeout)?;
    decoded(decode(&bytes))
}

fn finish_blocking(
    receiver: &mut Receiver,
    wire: &mut Wire,
    step: BlockingStep,
) -> Result<Vec<u8>, ChannelRecvError> {
    let mut step = step;
    loop {
        match step {
            BlockingStep::ReadExact { op, len } => {
                let read = wire.read_exact(len);
                step = receiver.read_length_prefixed_resume(op, read);
            }
            BlockingStep::Done(result) => return result,
        }
    }
}

fn recv<T: serde::de::DeserializeOwned>(
    receiver: &mut Receiver,
    wire: &mut Wire,
) -> Result<T, ChannelRecvError> {
    let step = receiver.read_length_prefixed();
    let bytes = finish_blocking(receiver, wire, step)?;
    decoded(decode(&bytes))
}

fn channel_pair() -> (Sender, Receiver, Wire) {
    (Sender::new(), Receiver::new(), Wire::new())
}

fn pipe() -> (Sender, Receiver, Wire) {
    (Sender::new(), Receiver::new_pipe(), Wire::new())
}

fn secs(n: u64) -> TimeSpan {
    TimeSpan::from_secs(n)
}

fn millis(n: u64) -> TimeSpan {
    TimeSpan::from_millis(n)
}

#[test]
fn mod_dropped_recver() {
    let (mut sender, _, mut wire) = channel_pair();
    wire.reader_open = false;
    assert!(send(&mut sender, &mut wire, &42u32).is_err());
}

#[test]
fn first_send_after_peer_close_is_io_and_later_ones_are_desynchronized() {
    let (mut sender, _, mut wire) = channel_pair();
    wire.reader_open = false;
    let err = send(&mut sender, &mut wire, &1u32).unwrap_err();
    assert!(matches!(&err, ChannelSendError::Io(io) if io.kind == IoErrorKind::BrokenPipe));
    assert_eq!(err.message(), "Failed to write to channel: Broken pipe (os error 32)");
    assert!(sender.is_poisoned());
    for _ in 0..3 {
        let err = send(&mut sender, &mut wire, &1u32).unwrap_err();
        assert!(matches!(err, ChannelSendError::Desynchronized));
        assert_eq!(
            err.message(),
            "Sender desynchronized by a prior failed send; connection must be abandoned"
        );
    }
    // Poison dominates: even an oversized payload reports it.
    let oversized = vec![0u8; MAX_MESSAGE_SIZE + 1];
    let err = send_raw(&mut sender, &mut wire, &oversized).unwrap_err();
    assert!(matches!(err, ChannelSendError::Desynchronized));
    // And so does a message that could not be encoded.
    let step = sender.send(Err(no_length()));
    let err = finish_send(&mut sender, &mut wire, step).unwrap_err();
    assert!(matches!(err, ChannelSendError::Desynchronized));
    assert!(sender.is_poisoned());
    assert!(wire.buf.is_empty());
}

#[test]
fn send_raw_with_timeout_roundtrip() {
    let (mut sender, mut recver, mut wire) = pipe();
    send_raw_with_timeout(&mut sender, &mut wire, b"hello", secs(1)).unwrap();
    assert_eq!(recv_raw_timeout(&mut recver, &mut wire, secs(1)).unwrap(), b"hello");
}

#[test]
fn send_raw_with_timeout_rejects_oversized() {
    let (mut sender, _recver, mut wire) = pipe();
    let oversized = vec![0u8; MAX_MESSAGE_SIZE + 1];
    let err = send_raw_with_timeout(&mut sender, &mut wire, &oversized, secs(1)).unwrap_err();
    assert!(
        matches!(
            err,
            ChannelSendError::MessageTooLarge { size, max: MAX_MESSAGE_SIZE }
                if size == MAX_MESSAGE_SIZE + 1
        ),
        "Unexpected error: {err:?}",
    );
    assert!(wire.buf.is_empty());
    assert!(!sender.is_poisoned());
}

#[test]
fn blocking_send_after_timeout_send_still_works() {
    let (mut sender, mut recver, mut wire) = pipe();
    send_raw_with_timeout(&mut sender, &mut wire, b"a", secs(1)).unwrap();
    assert_eq!(recv_raw_timeout(&mut recver, &mut wire, secs(1)).unwrap(), b"a");
    send(&mut sender, &mut wire, &42u32).unwrap();
    assert_eq!(recv::<u32>(&mut recver, &mut wire).unwrap(), 42);
}

#[test]
fn mid_frame_send_timeout_poisons_sender() {
    let (mut sender, _recver, mut wire) = pipe();
    let big = vec![0u8; 256 * 1024];
    let start = wire.now;
    let err = send_raw_with_timeout(&mut sender, &mut wire, &big, millis(100)).unwrap_err();
    assert!(matches!(err, ChannelSendError::Timeout), "got {err:?}");
    assert_eq!(err.message(), "Timeout sending a message on the channel");
    assert_eq!(wire.now.saturating_duration_since(start), millis(100));
    let err = send_raw_with_timeout(&mut sender, &mut wire, b"x", secs(1)).unwrap_err();
    assert!(matches!(err, ChannelSendError::Desynchronized), "got {err:?}");
    let err = send(&mut sender, &mut wire, &42u32).unwrap_err();
    assert!(matches!(err, ChannelSendError::Desynchronized), "got {err:?}");
}

#[test]
fn send_timeout_before_the_frame_does_not_poison() {
    let (mut sender, mut recver, mut wire) = pipe();
    wire.capacity = 0;
    let err = send_raw_with_timeout(&mut sender, &mut wire, b"x", millis(20)).unwrap_err();
    assert!(matches!(err, ChannelSendError::Timeout), "got {err:?}");
    assert!(!sender.is_poisoned());
    wire.capacity = 65_536;
    send_raw_with_timeout(&mut sender, &mut wire, b"x", millis(20)).unwrap();
    assert_eq!(recv_raw_timeout(&mut recver, &mut wire, secs(1)).unwrap(), b"x");
    // A peer that is gone is an error, and poisons only in the middle of a frame.
    wire.reader_open = false;
    let err = send_raw_with_timeout(&mut sender, &mut wire, b"x", secs(1)).unwrap_err();
    assert_eq!(err.message(), "Failed to write to channel: Broken pipe (os error 32)");
    assert!(!sender.is_poisoned());
}

#[test]
fn interrupted_timed_write_is_made_again() {
    let mut sender = Sender::new();
    let now = Moment { nanos: 0 };
    let TimedSendStep::Write { op } = sender.send_raw_with_timeout(b"abc".to_vec(), now, secs(1))
    else {
        panic!("a write comes first");
    };
    assert_eq!(op.left(), b"\x03\x00\x00\x00abc");
    let wrote = WriteEvent::Wrote(Err(sys_error(Errno::EINTR, "interrupted")));
    let TimedSendStep::Write { op } = sender.send_raw_with_timeout_resume(op, wrote) else {
        panic!("the write is made again");
    };
    let TimedSendStep::Write { op } = sender.send_raw_with_timeout_resume(op, WriteEvent::Wrote(Ok(5)))
    else {
        panic!("some bytes are left");
    };
    assert_eq!(op.left(), b"bc");
    let wrote = WriteEvent::Wrote(Err(sys_error(Errno::Other(5), "EIO")));
    let TimedSendStep::Done(Err(err)) = sender.send_raw_with_timeout_resume(op, wrote) else {
        panic!("a failed write ends the send");
    };
    assert_eq!(err.message(), "Failed to write to channel: EIO");
    assert!(sender.is_poisoned());
}

#[test]
fn pipe_reports_interruptions_and_resets_as_errors() {
    for errno in [Errno::EINTR, Errno::ECONNRESET] {
        let mut receiver = Receiver::new_pipe();
        let RecvStep::Recv { op, .. } = receiver.recv_raw_timeout(Moment { nanos: 0 }, secs(1))
        else {
            panic!("a read comes first");
        };
        let step = receiver.recv_raw_resume(op, ReadEvent::Recv(Err(sys_error(errno, "read"))));
        assert!(matches!(step, RecvStep::Done(Err(ChannelRecvError::Io(_)))), "{errno:?}");
        assert!(!receiver.is_poisoned());
    }
    let mut receiver = Receiver::new_pipe();
    let BlockingStep::ReadExact { op, .. } = receiver.read_length_prefixed() else {
        panic!("the prefix is read first");
    };
    let reset = io_error(IoErrorKind::ConnectionReset, "reset");
    let step = receiver.read_length_prefixed_resume(op, Err(reset));
    assert!(matches!(step, BlockingStep::Done(Err(ChannelRecvError::Io(_)))));
    assert!(receiver.is_poisoned());
}

#[test]
fn pipe_may_poll_without_waiting() {
    let deadline = Moment { nanos: 1_000_000_000 };
    let ReadStep::Recv { read, max: 4 } = read_exact_with_timeout(Transport::Pipe, 4, deadline, 0)
    else {
        panic!("a read comes first");
    };
    let again = ReadEvent::Recv(Err(sys_error(Errno::EAGAIN, "again")));
    let ReadStep::ReadClock { read } = read.read_exact_with_timeout_impl(again) else {
        panic!("an empty pipe is polled");
    };
    let clock = ReadEvent::Clock(Moment { nanos: 0 });
    assert!(matches!(
        read.read_exact_with_timeout_impl(clock),
        ReadStep::Poll { timeout_ms: 0, .. }
    ));
}

#[test]
fn pipe_checks_the_clock_after_a_poll_that_found_nothing() {
    let mut receiver = Receiver::new_pipe();
    let RecvStep::Recv { op, .. } = receiver.recv_raw_timeout(Moment { nanos: 0 }, secs(1)) else {
        panic!("a read comes first");
    };
    let RecvStep::ReadClock { op } =
        receiver.recv_raw_resume(op, ReadEvent::Recv(Err(sys_error(Errno::EAGAIN, "again"))))
    else {
        panic!("an empty pipe is polled");
    };
    let RecvStep::Poll { op, timeout_ms } =
        receiver.recv_raw_resume(op, ReadEvent::Clock(Moment { nanos: 999_500_000 }))
    else {
        panic!("before the deadline there is a poll");
    };
    assert_eq!(timeout_ms, 0);
    let RecvStep::ReadClock { op } = receiver.recv_raw_resume(op, ReadEvent::Poll(Ok(false))) else {
        panic!("nothing was found");
    };
    let RecvStep::Poll { op, .. } =
        receiver.recv_raw_resume(op, ReadEvent::Clock(Moment { nanos: 999_900_000 }))
    else {
        panic!("the deadline is not reached yet");
    };
    assert!(matches!(
        receiver.recv_raw_resume(op, ReadEvent::Poll(Ok(true))),
        RecvStep::Recv { max: 4, .. }
    ));
    // The messages are the same ones.
    let (mut sender, mut receiver, mut wire) = pipe();
    send(&mut sender, &mut wire, &42u32).unwrap();
    assert_eq!(recv_timeout::<u32>(&mut receiver, &mut wire, secs(1)).unwrap(), 42);
    let err = recv_timeout::<u32>(&mut receiver, &mut wire, millis(50)).unwrap_err();
    assert!(matches!(err, ChannelRecvError::Timeout));
    wire.writer_open = false;
    let err = recv::<u32>(&mut receiver, &mut wire).unwrap_err();
    assert!(matches!(err, ChannelRecvError::SenderClosed));
}

#[test]
fn mod_primitive_u32() {
    let (mut sender, mut receiver, mut wire) = channel_pair();
    send(&mut sender, &mut wire, &42u32).unwrap();
    assert_eq!(recv::<u32>(&mut receiver, &mut wire).unwrap(), 42);
    send(&mut sender, &mut wire, &42u32).unwrap();
    assert_eq!(recv_timeout::<u32>(&mut receiver, &mut wire, secs(1)).unwrap(), 42);
}

#[test]
fn mod_string() {
    let (mut sender, mut receiver, mut wire) = channel_pair();
    send(&mut sender, &mut wire, &"Hello, World!".to_string()).unwrap();
    assert_eq!(recv::<String>(&mut receiver, &mut wire).unwrap(), "Hello, World!");
    send(&mut sender, &mut wire, &"Hello, World!".to_string()).unwrap();
    assert_eq!(
        recv_timeout::<String>(&mut receiver, &mut wire, secs(1)).unwrap(),
        "Hello, World!"
    );
}

#[test]
fn mod_custom_struct() {
    let (mut sender, mut receiver, mut wire) = channel_pair();
    let value = (42u32, "Hello, World!".to_string());
    send(&mut sender, &mut wire, &value).unwrap();
    assert_eq!(recv::<(u32, String)>(&mut receiver, &mut wire).unwrap(), value);
    send(&mut sender, &mut wire, &value).unwrap();
    assert_eq!(
        recv_timeout::<(u32, String)>(&mut receiver, &mut wire, secs(1)).unwrap(),
        value
    );
}

#[test]
fn mod_dropped_sender() {
    let (_, mut receiver, mut wire) = channel_pair();
    wire.writer_open = false;
    let err = recv::<u32>(&mut receiver, &mut wire).unwrap_err();
    assert!(matches!(err, ChannelRecvError::SenderClosed), "Unexpected error: {err:?}");
    let err = recv_timeout::<u32>(&mut receiver, &mut wire, secs(1)).unwrap_err();
    assert!(matches!(err, ChannelRecvError::SenderClosed), "Unexpected error: {err:?}");
    assert_eq!(err.message(), "Sender closed the channel");
    assert!(!receiver.is_poisoned());
}

#[test]
fn peer_reset_is_sender_closed_on_both_paths() {
    let mut receiver = Receiver::new();
    let BlockingStep::ReadExact { op, len } = receiver.read_length_prefixed() else {
        panic!("a sound receiver reads the prefix first");
    };
    assert_eq!(len, 4);
    let step = receiver
        .read_length_prefixed_resume(op, Err(io_error(IoErrorKind::ConnectionReset, "reset")));
    assert!(matches!(step, BlockingStep::Done(Err(ChannelRecvError::SenderClosed))));
    let RecvStep::Recv { op, max } = receiver.recv_raw_timeout(Moment { nanos: 0 }, secs(1)) else {
        panic!("a sound receiver receives first");
    };
    assert_eq!(max, 4);
    let step = receiver
        .recv_raw_resume(op, ReadEvent::Recv(Err(sys_error(Errno::ECONNRESET, "reset"))));
    assert!(matches!(step, RecvStep::Done(Err(ChannelRecvError::SenderClosed))));
    assert!(!receiver.is_poisoned());
}

#[test]
fn mod_timeout() {
    let (_, mut receiver, mut wire) = channel_pair();
    let err = recv_timeout::<u32>(&mut receiver, &mut wire, secs(1)).unwrap_err();
    assert!(matches!(err, ChannelRecvError::Timeout), "Unexpected error: {err:?}");
    assert_eq!(err.message(), "Timeout waiting for a message on the channel");
}

#[test]
fn mod_zero_timeout_with_data_ready() {
    let (mut sender, mut receiver, mut wire) = channel_pair();
    send(&mut sender, &mut wire, &42u32).unwrap();
    assert_eq!(recv_timeout::<u32>(&mut receiver, &mut wire, TimeSpan::zero()).unwrap(), 42);
}

#[test]
fn mod_zero_timeout_without_data() {
    let (_, mut receiver, mut wire) = channel_pair();
    let err = recv_timeout::<u32>(&mut receiver, &mut wire, TimeSpan::zero()).unwrap_err();
    assert!(matches!(err, ChannelRecvError::Timeout), "Unexpected error: {err:?}");
}

#[test]
fn mod_very_short_timeout_without_data() {
    let (_, mut receiver, mut wire) = channel_pair();
    let start = wire.now;
    let err = recv_timeout::<u32>(&mut receiver, &mut wire, millis(1)).unwrap_err();
    assert!(matches!(err, ChannelRecvError::Timeout), "Unexpected error: {err:?}");
    assert!(wire.now.saturating_duration_since(start) < secs(10));
}

#[test]
fn mod_large_message() {
    let (mut sender, mut receiver, mut wire) = channel_pair();
    let large_data: Vec<u8> = (0..100_000).map(|i| (i % 256) as u8).collect();
    send(&mut sender, &mut wire, &large_data).unwrap();
    wire.chunk = 4096;
    let received: Vec<u8> = recv_timeout(&mut receiver, &mut wire, secs(5)).unwrap();
    assert_eq!(received, large_data);
}

#[test]
fn mod_multiple_sequential_messages() {
    let (mut sender, mut receiver, mut wire) = channel_pair();
    for i in 0..10u32 {
        send(&mut sender, &mut wire, &i).unwrap();
    }
    for i in 0..10u32 {
        assert_eq!(recv_timeout::<u32>(&mut receiver, &mut wire, secs(1)).unwrap(), i);
    }
}

#[test]
fn mod_timeout_waiting_for_length_bytes() {
    let (_, mut receiver, mut wire) = channel_pair();
    let start = wire.now;
    let err = recv_timeout::<u32>(&mut receiver, &mut wire, millis(50)).unwrap_err();
    let elapsed = wire.now.saturating_duration_since(start);
    assert!(matches!(err, ChannelRecvError::Timeout), "Unexpected error: {err:?}");
    assert!(elapsed >= millis(40), "Timeout returned too quickly: {elapsed:?}");
    assert!(elapsed < millis(500), "Timeout took too long: {elapsed:?}");
}

#[test]
fn mod_timeout_waiting_for_payload() {
    let (_, mut receiver, mut wire) = channel_pair();
    wire.raw_write(&100u32.to_le_bytes());
    let start = wire.now;
    let err = recv_timeout::<u32>(&mut receiver, &mut wire, millis(50)).unwrap_err();
    let elapsed = wire.now.saturating_duration_since(start);
    assert!(matches!(err, ChannelRecvError::Timeout), "Unexpected error: {err:?}");
    assert!(elapsed >= millis(40), "Timeout returned too quickly: {elapsed:?}");
}

#[test]
fn mod_sender_closes_after_partial_length() {
    let (_, mut receiver, mut wire) = channel_pair();
    wire.raw_write(&[1, 2]);
    wire.writer_open = false;
    let err = recv_timeout::<u32>(&mut receiver, &mut wire, secs(1)).unwrap_err();
    assert!(matches!(err, ChannelRecvError::SenderClosed), "Unexpected error: {err:?}");
    assert!(!receiver.is_poisoned());
}

#[test]
fn mod_sender_closes_after_partial_payload() {
    let (_, mut receiver, mut wire) = channel_pair();
    wire.raw_write(&100u32.to_le_bytes());
    wire.raw_write(&[0u8; 10]);
    wire.writer_open = false;
    let err = recv_timeout::<Vec<u8>>(&mut receiver, &mut wire, secs(1)).unwrap_err();
    assert!(matches!(err, ChannelRecvError::SenderClosed), "Unexpected error: {err:?}");
    assert!(!receiver.is_poisoned());
}

#[test]
fn mod_roundtrip_short_payload() {
    let (mut sender, mut receiver, mut wire) = channel_pair();
    send_raw(&mut sender, &mut wire, b"hello").unwrap();
    assert_eq!(recv_raw_timeout(&mut receiver, &mut wire, secs(1)).unwrap(), b"hello");
}

#[test]
fn mod_roundtrip_empty_payload() {
    let (mut sender, mut receiver, mut wire) = channel_pair();
    send_raw(&mut sender, &mut wire, b"").unwrap();
    assert_eq!(recv_raw_timeout(&mut receiver, &mut wire, secs(1)).unwrap(), b"");
}

#[test]
fn mod_roundtrip_near_max_payload() {
    let payload: Vec<u8> = (0..MAX_MESSAGE_SIZE - 4).map(|i| (i % 251) as u8).collect();
    let (mut sender, mut receiver, mut wire) = channel_pair();
    send_raw(&mut sender, &mut wire, &payload).unwrap();
    let received = recv_raw_timeout(&mut receiver, &mut wire, secs(10)).unwrap();
    assert_eq!(received, payload);
    // Exactly the maximum is still accepted.
    let payload = vec![7u8; MAX_MESSAGE_SIZE];
    send_raw(&mut sender, &mut wire, &payload).unwrap();
    assert_eq!(recv_raw_timeout(&mut receiver, &mut wire, secs(10)).unwrap(), payload);
}

#[test]
fn mod_payload_over_max_size_rejected_on_send() {
    let (mut sender, _, mut wire) = channel_pair();
    let oversized = vec![0u8; MAX_MESSAGE_SIZE + 1];
    let err = send_raw(&mut sender, &mut wire, &oversized).unwrap_err();
    assert!(
        matches!(
            err,
            ChannelSendError::MessageTooLarge { size, max: MAX_MESSAGE_SIZE }
                if size == MAX_MESSAGE_SIZE + 1
        ),
        "Unexpected error: {err:?}",
    );
    assert_eq!(err.message(), "Message size 1048577 exceeds maximum 1048576");
    assert!(wire.buf.is_empty());
    assert!(!sender.is_poisoned());
}

#[test]
fn mod_dropped_sender_gives_eof_to_recv_raw_timeout() {
    let (_, mut receiver, mut wire) = channel_pair();
    wire.writer_open = false;
    assert!(recv_raw_timeout(&mut receiver, &mut wire, secs(1)).is_err());
}

#[test]
fn mod_length_prefix_is_four_bytes_little_endian() {
    let (mut sender, _, mut wire) = channel_pair();
    send_raw(&mut sender, &mut wire, b"abc").unwrap();
    let on_wire: Vec<u8> = wire.buf.iter().copied().collect();
    assert_eq!(on_wire, b"\x03\x00\x00\x00abc");
}

#[test]
fn prefix_of_and_declared_len_are_inverse() {
    for n in [0u32, 1, 255, 256, 65_535, 65_536, 1_048_576, 0x0102_0304, u32::MAX] {
        assert_eq!(prefix_of(n), n.to_le_bytes());
        assert_eq!(declared_len(&prefix_of(n)), n);
    }
}

#[test]
fn mod_send_typed_then_recv_raw_observes_postcard_bytes() {
    let (mut sender, mut receiver, mut wire) = channel_pair();
    send(&mut sender, &mut wire, &(0x42u32, "hi".to_string())).unwrap();
    let raw = recv_raw_timeout(&mut receiver, &mut wire, secs(1)).unwrap();
    assert!(!raw.is_empty());
}

#[test]
fn mod_mid_frame_recv_timeout_poisons_receiver() {
    let (_, mut receiver, mut wire) = channel_pair();
    wire.raw_write(&100u32.to_le_bytes());
    let err = recv_raw_timeout(&mut receiver, &mut wire, millis(50)).unwrap_err();
    assert!(matches!(err, ChannelRecvError::Timeout), "got {err:?}");
    let err = recv_raw_timeout(&mut receiver, &mut wire, secs(1)).unwrap_err();
    assert!(matches!(err, ChannelRecvError::Desynchronized), "got {err:?}");
    let err = recv::<u32>(&mut receiver, &mut wire).unwrap_err();
    assert!(matches!(err, ChannelRecvError::Desynchronized), "got {err:?}");
    assert_eq!(
        err.message(),
        "Receiver desynchronized by a prior partial receive; connection must be abandoned"
    );
}

#[test]
fn mod_clean_idle_recv_timeout_does_not_poison() {
    let (mut sender, mut receiver, mut wire) = channel_pair();
    let err = recv_raw_timeout(&mut receiver, &mut wire, millis(50)).unwrap_err();
    assert!(matches!(err, ChannelRecvError::Timeout), "got {err:?}");
    send_raw(&mut sender, &mut wire, b"ok").unwrap();
    assert_eq!(recv_raw_timeout(&mut receiver, &mut wire, secs(1)).unwrap(), b"ok");
}

#[test]
fn mod_message_too_large_poisons_receiver() {
    let (_, mut receiver, mut wire) = channel_pair();
    let too_big = (MAX_MESSAGE_SIZE as u32) + 1;
    wire.raw_write(&too_big.to_le_bytes());
    let err = recv_raw_timeout(&mut receiver, &mut wire, secs(1)).unwrap_err();
    assert!(matches!(err, ChannelRecvError::MessageTooLarge { .. }), "got {err:?}");
    assert_eq!(err.message(), "Message size 1048577 exceeds maximum 1048576");
    let err = recv_raw_timeout(&mut receiver, &mut wire, secs(1)).unwrap_err();
    assert!(matches!(err, ChannelRecvError::Desynchronized), "got {err:?}");
}

#[test]
fn message_too_large_poisons_a_blocking_receive() {
    let (_, mut receiver, mut wire) = channel_pair();
    wire.raw_write(&u32::MAX.to_le_bytes());
    let err = recv::<u32>(&mut receiver, &mut wire).unwrap_err();
    assert!(matches!(
        err,
        ChannelRecvError::MessageTooLarge { size: 4_294_967_295, max: MAX_MESSAGE_SIZE }
    ));
    assert!(receiver.is_poisoned());
}

#[test]
fn blocking_read_failure_poisons_and_names_the_error() {
    let mut receiver = Receiver::new();
    let BlockingStep::ReadExact { op, .. } = receiver.read_length_prefixed() else {
        panic!("a sound receiver reads the prefix first");
    };
    let step = receiver.read_length_prefixed_resume(op, Err(io_error(IoErrorKind::Other, "EIO")));
    let BlockingStep::Done(Err(err)) = step else {
        panic!("a failed read ends the receive");
    };
    assert_eq!(err.message(), "Failed to read from channel: EIO");
    assert!(receiver.is_poisoned());
}

#[test]
fn decode_failure_does_not_poison() {
    let (mut sender, mut receiver, mut wire) = channel_pair();
    send_raw(&mut sender, &mut wire, &[0xff; 3]).unwrap();
    let err = recv_timeout::<(u32, String)>(&mut receiver, &mut wire, secs(1)).unwrap_err();
    assert!(matches!(&err, ChannelRecvError::Decode(_)), "got {err:?}");
    assert!(err.message().starts_with("Failed to decode message: "));
    assert!(!receiver.is_poisoned());
    send(&mut sender, &mut wire, &5u32).unwrap();
    assert_eq!(recv::<u32>(&mut receiver, &mut wire).unwrap(), 5);
}

#[test]
fn encode_failure_writes_nothing_and_does_not_poison() {
    let (mut sender, _, mut wire) = channel_pair();
    let step = sender.send(Err(no_length()));
    let err = finish_send(&mut sender, &mut wire, step).unwrap_err();
    assert_eq!(err.message(), "Failed to encode message: The length of a sequence must be known");
    assert!(wire.buf.is_empty());
    assert!(!sender.is_poisoned());
}

#[test]
fn messages_survive_byte_by_byte_delivery_with_interruptions() {
    let (mut sender, mut receiver, mut wire) = channel_pair();
    let payloads: [&[u8]; 4] = [b"first", b"", b"\x00\x00\x00\x00", b"last"];
    for payload in payloads {
        send_raw(&mut sender, &mut wire, payload).unwrap();
    }
    wire.chunk = 1;
    wire.interrupts = true;
    for payload in payloads {
        assert_eq!(recv_raw_timeout(&mut receiver, &mut wire, secs(1)).unwrap(), payload);
    }
    assert!(wire.buf.is_empty());
}

#[test]
fn poison_after_decision_table() {
    let io = || ChannelRecvError::Io(io_error(IoErrorKind::Other, "injected"));
    assert!(!poison_after(&ChannelRecvError::Timeout, 0));
    assert!(!poison_after(&io(), 0));
    assert!(!poison_after(&ChannelRecvError::SenderClosed, 0));
    assert!(poison_after(&ChannelRecvError::Timeout, 1));
    assert!(poison_after(&io(), 3));
    assert!(poison_after(&ChannelRecvError::Timeout, 4));
    assert!(!poison_after(&ChannelRecvError::SenderClosed, 3));
}

#[test]
fn mid_frame_io_failures_poison_and_idle_ones_do_not() {
    for (delivered, poisons) in [(0usize, false), (2, true), (4, true), (6, true)] {
        let mut receiver = Receiver::new();
        let mut bytes: VecDeque<u8> = 10u32.to_le_bytes().into_iter().chain([9u8; 10]).collect();
        bytes.truncate(delivered);
        let mut step = receiver.recv_raw_timeout(Moment { nanos: 0 }, secs(1));
        loop {
            match step {
                RecvStep::Recv { op, max } => {
                    let n = max.min(bytes.len());
                    let event = if n == 0 {
                        Err(sys_error(Errno::Other(5), "EIO"))
                    } else {
                        Ok(bytes.drain(..n).collect())
                    };
                    step = receiver.recv_raw_resume(op, ReadEvent::Recv(event));
                }
                RecvStep::Done(result) => {
                    assert_eq!(result.unwrap_err().message(), "Failed to read from channel: EIO");
                    break;
                }
                _ => panic!("nothing but receives was asked for"),
            }
        }
        assert_eq!(receiver.is_poisoned(), poisons, "after {delivered} bytes");
    }
}

#[test]
fn interrupted_poll_is_retried_and_failed_poll_is_io() {
    for (errno, fails) in [(Errno::EINTR, false), (Errno::Other(12), true)] {
        let mut receiver = Receiver::new();
        let RecvStep::Recv { op, .. } = receiver.recv_raw_timeout(Moment { nanos: 0 }, secs(1))
        else {
            panic!("a receive comes first");
        };
        let RecvStep::ReadClock { op } =
            receiver.recv_raw_resume(op, ReadEvent::Recv(Err(sys_error(Errno::EAGAIN, "again"))))
        else {
            panic!("an empty socket is polled");
        };
        let RecvStep::Poll { op, timeout_ms } =
            receiver.recv_raw_resume(op, ReadEvent::Clock(Moment { nanos: 400_000_000 }))
        else {
            panic!("before the deadline there is a poll");
        };
        assert_eq!(timeout_ms, 600);
        let step = receiver.recv_raw_resume(op, ReadEvent::Poll(Err(sys_error(errno, "poll"))));
        assert_eq!(matches!(step, RecvStep::Done(Err(ChannelRecvError::Io(_)))), fails);
        assert_eq!(matches!(step, RecvStep::Recv { .. }), !fails);
    }
}

#[test]
fn normalize_blocking_read_err_table() {
    for kind in [IoErrorKind::UnexpectedEof, IoErrorKind::ConnectionReset] {
        assert!(matches!(
            normalize_blocking_read_err(Transport::Socket, io_error(kind, "gone")),
            ChannelRecvError::SenderClosed
        ));
    }
    assert!(matches!(
        normalize_blocking_read_err(Transport::Pipe, io_error(IoErrorKind::UnexpectedEof, "gone")),
        ChannelRecvError::SenderClosed
    ));
    assert!(matches!(
        normalize_blocking_read_err(Transport::Pipe, io_error(IoErrorKind::ConnectionReset, "gone")),
        ChannelRecvError::Io(io) if io.kind == IoErrorKind::ConnectionReset
    ));
    for kind in [IoErrorKind::BrokenPipe, IoErrorKind::WouldBlock, IoErrorKind::Other] {
        assert!(matches!(
            normalize_blocking_read_err(Transport::Socket, io_error(kind, "io")),
            ChannelRecvError::Io(io) if io.kind == kind
        ));
    }
}

#[test]
fn recv_timeout_with_overflowing_duration_does_not_panic() {
    let (mut sender, mut receiver, mut wire) = channel_pair();
    send(&mut sender, &mut wire, &7u32).unwrap();
    assert_eq!(recv_timeout::<u32>(&mut receiver, &mut wire, TimeSpan::max()).unwrap(), 7);
}

#[test]
fn deadline_from_clamps_instead_of_overflowing() {
    let before = Moment { nanos: 123_456_789_000_000_000 };
    let clamped = deadline_from(before, TimeSpan::max());
    assert!(clamped > before, "a clamped deadline must still be in the future");
    assert_eq!(clamped.nanos - before.nanos, 60 * 60 * 24 * 365 * 30 * 1_000_000_000);
    let normal = deadline_from(before, TimeSpan::from_secs(1));
    assert!(normal > before);
    assert_eq!(normal.nanos - before.nanos, 1_000_000_000);
    // At the very end of the clock the deadline is immediate.
    let end = Moment { nanos: 9_223_372_036_854_775_807_999_999_999 };
    assert_eq!(deadline_from(end, TimeSpan::from_secs(1)), end);
}

#[test]
fn poll_timeout_is_rounded_up_to_one_and_capped() {
    assert_eq!(poll_timeout_ms(TimeSpan { nanos: 1 }, 1, 65535), 1);
    assert_eq!(poll_timeout_ms(TimeSpan { nanos: 999_999 }, 1, 20), 1);
    assert_eq!(poll_timeout_ms(TimeSpan { nanos: 999_999 }, 0, 20), 0);
    assert_eq!(poll_timeout_ms(millis(19), 1, 20), 19);
    assert_eq!(poll_timeout_ms(millis(120), 1, 20), 20);
    assert_eq!(poll_timeout_ms(secs(3600), 1, 65535), 65535);
    assert_eq!(poll_timeout_ms(TimeSpan::max(), 1, 65535), 65535);
}

/// Drive a read of four bytes against a socket on which data arrives at
/// `arrives`, with polls of at most 20 ms.
fn read_four(
    transport: Transport,
    deadline: Moment,
    arrives: Option<Moment>,
) -> (Moment, Result<Vec<u8>, ChannelRecvError>) {
    let mut now = Moment { nanos: 0 };
    let mut step = read_exact_with_timeout(transport, 4, deadline, 20);
    loop {
        match step {
            ReadStep::Recv { read, .. } => {
                let ready = arrives.is_some_and(|at| now >= at);
                let event = if ready {
                    Ok(vec![1u8, 2, 3, 4])
                } else {
                    Err(sys_error(Errno::EAGAIN, "again"))
                };
                step = read.read_exact_with_timeout_impl(ReadEvent::Recv(event));
            }
            ReadStep::ReadClock { read } => {
                step = read.read_exact_with_timeout_impl(ReadEvent::Clock(now));
            }
            ReadStep::Poll { read, timeout_ms } => {
                assert!(timeout_ms <= 20);
                now.nanos += timeout_ms as u128 * 1_000_000;
                let ready = arrives.is_some_and(|at| now >= at);
                step = read.read_exact_with_timeout_impl(ReadEvent::Poll(Ok(ready)));
            }
            ReadStep::Complete { bytes } => return (now, Ok(bytes)),
            ReadStep::Failed { err, .. } => return (now, Err(err)),
        }
    }
}

#[test]
fn receiver_read_exact_with_timeout_receives_data_spanning_multiple_poll_windows() {
    for transport in [Transport::Socket, Transport::Pipe] {
        let (_, result) = read_four(
            transport,
            Moment { nanos: 5_000_000_000 },
            Some(Moment { nanos: 60_000_000 }),
        );
        assert_eq!(result.unwrap(), [1u8, 2, 3, 4]);
    }
}

#[test]
fn receiver_read_exact_with_timeout_waits_full_deadline_not_one_poll_window() {
    for transport in [Transport::Socket, Transport::Pipe] {
        let (elapsed, result) = read_four(transport, Moment { nanos: 120_000_000 }, None);
        assert!(elapsed >= Moment { nanos: 90_000_000 });
        let err = result.unwrap_err();
        assert!(matches!(err, ChannelRecvError::Timeout), "expected a timeout error, got: {err:?}");
    }
}

/// A client and a server, and the wires between them.
struct Rpc {
    client: RpcClient,
    server: RpcServer,
    to_server: Wire,
    to_client: Wire,
}

fn rpc_pair() -> Rpc {
    Rpc {
        client: RpcClient::new(),
        server: RpcServer::new(),
        to_server: Wire::new(),
        to_client: Wire::new(),
    }
}

impl Rpc {
    fn send_request(&mut self, v: &u32) -> Result<(), ChannelSendError> {
        let step = self.client.send_request(encode(v));
        finish_send(&mut self.client.sender, &mut self.to_server, step)
    }

    fn next_request(&mut self) -> Result<u32, ChannelRecvError> {
        let step = self.server.next_request();
        let bytes = finish_blocking(&mut self.server.receiver, &mut self.to_server, step)?;
        decoded(decode(&bytes))
    }

    fn send_response(&mut self, v: &u32) -> Result<(), ChannelSendError> {
        let step = self.server.send_response(encode(v));
        finish_send(&mut self.server.sender, &mut self.to_client, step)
    }

    fn recv_response(&mut self, timeout: TimeSpan) -> Result<u32, ChannelRecvError> {
        let step = self.client.recv_response(self.to_client.now, timeout);
        let bytes = finish_recv(&mut self.client.receiver, &mut self.to_client, step)?;
        decoded(decode(&bytes))
    }

    fn recv_response_blocking(&mut self) -> Result<u32, ChannelRecvError> {
        let step = self.client.recv_response_blocking();
        let bytes = finish_blocking(&mut self.client.receiver, &mut self.to_client, step)?;
        decoded(decode(&bytes))
    }

    fn send_handshake(&mut self, build_id: &str) -> Result<(), ChannelSendError> {
        let step = send_handshake(&self.server.sender, build_id);
        finish_send(&mut self.server.sender, &mut self.to_client, step)
    }

    fn send_raw_handshake(&mut self, bytes: &[u8]) -> Result<(), ChannelSendError> {
        let step = self.server.send_raw_handshake(bytes.to_vec());
        finish_send(&mut self.server.sender, &mut self.to_client, step)
    }

    fn recv_handshake(&mut self, timeout: TimeSpan) -> Result<Vec<u8>, ChannelRecvError> {
        let step = self.client.recv_raw_handshake_with_timeout(self.to_client.now, timeout);
        finish_recv(&mut self.client.receiver, &mut self.to_client, step)
    }

    fn validate(&mut self, expected: &str) -> Result<&'static str, HandshakeError> {
        let received = self.recv_handshake(secs(HANDSHAKE_TIMEOUT_SECS));
        validate_handshake_and_build_client("the client", received, expected)
    }

    fn drop_server(&mut self) {
        self.to_client.writer_open = false;
        self.to_server.reader_open = false;
    }

    fn drop_client(&mut self) {
        self.to_server.writer_open = false;
        self.to_client.reader_open = false;
    }
}

#[test]
fn failed_encoding_on_a_poisoned_end_is_desynchronized() {
    let mut rpc = rpc_pair();
    let step = rpc.client.send_request(Err(no_length()));
    let err = finish_send(&mut rpc.client.sender, &mut rpc.to_server, step).unwrap_err();
    assert!(matches!(err, ChannelSendError::Encode(_)));
    let step = rpc.server.send_response(Err(no_length()));
    let err = finish_send(&mut rpc.server.sender, &mut rpc.to_client, step).unwrap_err();
    assert!(matches!(err, ChannelSendError::Encode(_)));

    rpc.to_server.reader_open = false;
    rpc.to_client.reader_open = false;
    rpc.send_request(&1).unwrap_err();
    rpc.send_response(&1).unwrap_err();
    let step = rpc.client.send_request(Err(no_length()));
    let err = finish_send(&mut rpc.client.sender, &mut rpc.to_server, step).unwrap_err();
    assert!(matches!(err, ChannelSendError::Desynchronized));
    let step = rpc.server.send_response(Err(no_length()));
    let err = finish_send(&mut rpc.server.sender, &mut rpc.to_client, step).unwrap_err();
    assert!(matches!(err, ChannelSendError::Desynchronized));
}

fn rpc_round_trip() {
    let mut rpc = rpc_pair();
    rpc.send_request(&42).unwrap();
    assert_eq!(42, rpc.next_request().unwrap());
    rpc.send_response(&10).unwrap();
    assert_eq!(10, rpc.recv_response(secs(2)).unwrap());
}

#[test]
fn rpc_rpc() {
    rpc_round_trip();
}

#[test]
fn mod_rpc() {
    rpc_round_trip();
}

#[test]
fn in_process_rpc_pair_round_trips_a_request_and_response() {
    let mut rpc = rpc_pair();
    rpc.send_request(&41).unwrap();
    assert_eq!(41, rpc.next_request().unwrap());
    rpc.send_response(&42).unwrap();
    assert_eq!(42, rpc.recv_response_blocking().unwrap());
}

fn blocking_response() {
    let mut rpc = rpc_pair();
    rpc.send_request(&41).unwrap();
    let request = rpc.next_request().unwrap();
    rpc.send_response(&(request + 1)).unwrap();
    assert_eq!(42, rpc.recv_response_blocking().unwrap());
}

#[test]
fn rpc_recv_response_blocking_returns_the_response() {
    blocking_response();
}

#[test]
fn mod_recv_response_blocking_returns_the_response() {
    blocking_response();
}

fn blocking_response_after_daemon_death() {
    let mut rpc = rpc_pair();
    rpc.drop_server();
    let err = rpc
        .recv_response_blocking()
        .expect_err("a blocking receive must fail once the daemon's end is closed, not hang");
    assert!(
        matches!(err, ChannelRecvError::SenderClosed),
        "expected SenderClosed (normalized blocking-path EOF), got: {err:?}"
    );
}

#[test]
fn rpc_recv_response_blocking_errors_when_the_daemon_drops_its_end() {
    blocking_response_after_daemon_death();
}

#[test]
fn mod_recv_response_blocking_errors_when_the_daemon_drops_its_end() {
    blocking_response_after_daemon_death();
}

#[test]
fn next_request_errors_when_the_client_drops_its_end() {
    let mut rpc = rpc_pair();
    rpc.drop_client();
    let err = rpc.next_request().expect_err("the client is gone");
    assert!(matches!(err, ChannelRecvError::SenderClosed), "got: {err:?}");
}

const TEST_BUILD_ID: &str = "test-build-id-1.2.3";

fn matching_build_id() {
    let mut rpc = rpc_pair();
    rpc.send_handshake(TEST_BUILD_ID).unwrap();
    assert_eq!(rpc.validate(TEST_BUILD_ID).expect("matching build_id"), "the client");
}

fn mismatched_build_id() {
    let mut rpc = rpc_pair();
    rpc.send_handshake("some-other-version-1.2.3").unwrap();
    let err = rpc.validate(TEST_BUILD_ID).expect_err("mismatched build_id should be rejected");
    assert_eq!(
        err.message(),
        "Parent and daemon binaries don't match (parent=test-build-id-1.2.3, \
         daemon=some-other-version-1.2.3). Refusing to start."
    );
    match err {
        HandshakeError::Mismatch { expected, received } => {
            assert_eq!(TEST_BUILD_ID, expected);
            assert_eq!("some-other-version-1.2.3", received);
        }
        other => panic!("expected Mismatch, got: {other:?}"),
    }
}

fn non_utf8_build_id() {
    let mut rpc = rpc_pair();
    rpc.send_raw_handshake(&[0xff, 0xfe]).unwrap();
    let err = rpc.validate(TEST_BUILD_ID).expect_err("non-UTF-8 should be rejected");
    assert!(matches!(err, HandshakeError::InvalidUtf8(_)), "expected InvalidUtf8, got: {err:?}");
    assert_eq!(err.message(), "Daemon sent a build-id that isn't valid UTF-8");
}

fn daemon_closes_before_handshake() {
    let mut rpc = rpc_pair();
    rpc.drop_server();
    let err = rpc.validate(TEST_BUILD_ID).expect_err("missing handshake should be rejected");
    assert!(
        matches!(err, HandshakeError::Recv(ChannelRecvError::SenderClosed)),
        "expected Recv(SenderClosed), got: {err:?}",
    );
    assert_eq!(
        err.message(),
        "Failed to receive build-id handshake from daemon: Sender closed the channel"
    );
}

fn daemon_hangs_without_sending() {
    let mut rpc = rpc_pair();
    let err = rpc
        .recv_handshake(millis(50))
        .expect_err("hung daemon should be rejected via timeout");
    assert!(matches!(err, ChannelRecvError::Timeout), "expected Timeout, got: {err:?}");
}

#[test]
fn spawn_accepts_matching_build_id() {
    matching_build_id();
}

#[test]
fn handshake_accepts_matching_build_id() {
    matching_build_id();
}

#[test]
fn spawn_rejects_mismatched_build_id() {
    mismatched_build_id();
}

#[test]
fn handshake_rejects_mismatched_build_id() {
    mismatched_build_id();
}

#[test]
fn spawn_rejects_non_utf8_build_id() {
    non_utf8_build_id();
}

#[test]
fn handshake_rejects_non_utf8_build_id() {
    non_utf8_build_id();
}

#[test]
fn spawn_rejects_when_daemon_closes_before_handshake() {
    daemon_closes_before_handshake();
}

#[test]
fn handshake_rejects_when_daemon_closes_before_handshake() {
    daemon_closes_before_handshake();
}

#[test]
fn spawn_rejects_when_daemon_hangs_without_sending() {
    daemon_hangs_without_sending();
}

#[test]
fn handshake_rejects_when_daemon_hangs_without_sending() {
    daemon_hangs_without_sending();
}

#[test]
fn handshake_of_non_ascii_build_ids() {
    let mut rpc = rpc_pair();
    rpc.send_handshake("app \u{e9}\u{4e2d}\u{1f600} 1.0").unwrap();
    assert!(rpc.validate("app \u{e9}\u{4e2d}\u{1f600} 1.0").is_ok());
    let mut rpc = rpc_pair();
    rpc.send_handshake("app e 1.0").unwrap();
    assert!(rpc.validate("app \u{e9} 1.0").is_err());
}

#[test]
fn bootstrap_payload_round_trips_over_the_raw_frame_path() {
    let mut rpc = rpc_pair();
    let sent = (42u32, "hello".to_string());
    let bytes = encode(&sent).unwrap();
    let step = rpc.client.sender.send_raw(bytes);
    finish_send(&mut rpc.client.sender, &mut rpc.to_server, step).unwrap();

    let received_bytes =
        recv_raw_timeout(&mut rpc.server.receiver, &mut rpc.to_server, secs(1)).unwrap();
    let received: (u32, String) = decode(&received_bytes).unwrap();
    assert_eq!(sent, received);

    let step = send_raw_bootstrap_ack(&rpc.server.sender);
    finish_send(&mut rpc.server.sender, &mut rpc.to_client, step).unwrap();
    let ack = recv_raw_timeout(&mut rpc.client.receiver, &mut rpc.to_client, secs(1));
    recv_raw_bootstrap_ack(ack).unwrap();
}

#[test]
fn bootstrap_ack_must_be_empty() {
    assert!(matches!(
        recv_raw_bootstrap_ack(Ok(vec![1, 2, 3])),
        Err(BootstrapAckError::NonEmptyAck { len: 3 })
    ));
    assert!(matches!(
        recv_raw_bootstrap_ack(Err(ChannelRecvError::Timeout)),
        Err(BootstrapAckError::Recv(ChannelRecvError::Timeout))
    ));
    assert!(matches!(
        handshake_and_ship_bootstrap(BootstrapEvent::AckReceived(Ok(Vec::new()))),
        BootstrapStep::Done(Ok(()))
    ));
    assert!(matches!(
        handshake_and_ship_bootstrap(BootstrapEvent::Handshake(Ok(()))),
        BootstrapStep::SendPayload { timeout_secs: 10 }
    ));
    assert!(matches!(
        handshake_and_ship_bootstrap(BootstrapEvent::PayloadSent(Ok(()))),
        BootstrapStep::ReceiveAck { timeout_secs: 10 }
    ));
}

#[test]
fn invalid_build_id_carries_where_it_breaks_off() {
    let bytes = b"build 1\xff";
    let verdict = validate_handshake_and_build_client((), Ok(bytes.to_vec()), "build 1");
    let Err(HandshakeError::InvalidUtf8(err)) = verdict else {
        panic!("the bytes are no text");
    };
    assert_eq!(err.valid_up_to(), 7);
    assert_eq!(Err(err), std::str::from_utf8(bytes));
}

#[test]
fn error_debug_output() {
    let broken = || io_error(IoErrorKind::BrokenPipe, "gone");
    assert_eq!(
        ChannelSendError::MessageTooLarge { size: 5, max: 4 }.debug_message(),
        "MessageTooLarge { size: 5, max: 4 }"
    );
    assert_eq!(
        ChannelSendError::Encode(no_length()).debug_message(),
        "Encode(SerializeSeqLengthUnknown)"
    );
    assert_eq!(
        ChannelSendError::Io(broken()).debug_message(),
        "Io(Custom { kind: BrokenPipe, error: \"gone\" })"
    );
    assert_eq!(ChannelSendError::Timeout.debug_message(), "Timeout");
    assert_eq!(ChannelSendError::Desynchronized.debug_message(), "Desynchronized");
    assert_eq!(ChannelRecvError::Timeout.debug_message(), "Timeout");
    assert_eq!(ChannelRecvError::SenderClosed.debug_message(), "SenderClosed");
    assert_eq!(
        ChannelRecvError::MessageTooLarge { size: 5, max: 4 }.debug_message(),
        "MessageTooLarge { size: 5, max: 4 }"
    );
    assert_eq!(ChannelRecvError::Desynchronized.debug_message(), "Desynchronized");
    assert_eq!(
        ChannelRecvError::Decode(decode::<u32>(&[]).unwrap_err()).debug_message(),
        "Decode(DeserializeUnexpectedEnd)"
    );
    assert_eq!(
        ChannelRecvError::Io(broken()).debug_message(),
        "Io(Custom { kind: BrokenPipe, error: \"gone\" })"
    );
}

#[test]
fn channel_create_error_message() {
    let err = ChannelCreateError::CreateSocket(io_error(IoErrorKind::Other, "EMFILE"));
    assert_eq!(err.message(), "Failed to create channel: EMFILE");
}
