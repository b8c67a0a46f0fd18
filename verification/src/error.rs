//! Typed errors of the IPC layer.
//!
//! Every enum that callers match on is `#[non_exhaustive]`, so that a new
//! failure mode is no breaking change.

use vstd::prelude::*;

use crate::text::{
    begins_with, decimal, decimal_text, ends_with, lead, lemma_ends_of_a_sum, numeral, numeral_text,
    signed_decimal, signed_decimal_text,
};
use crate::utf8::{lossy_text, shown_bytes};

verus! {

/// The category of an I/O error, as far as the protocol tells them apart.
#[derive(Clone, Copy, Debug, PartialEq, Eq, Structural)]
pub enum IoErrorKind {
    /// A read met the end of the stream before its buffer was full.
    UnexpectedEof,
    /// The peer closed while it still had unread bytes queued.
    ConnectionReset,
    /// The other end of the channel is gone.
    BrokenPipe,
    /// The operation would have to wait.
    WouldBlock,
    /// A signal arrived before anything happened.
    Interrupted,
    /// The operation is not permitted.
    PermissionDenied,
    /// There is no such thing.
    NotFound,
    /// Anything else.
    Other,
}

/// An I/O error: its category, the operating system's number for it where there
/// is one, the text that describes it, and the text of its debug output.
#[derive(Debug, PartialEq, Eq)]
pub struct IoError {
    pub kind: IoErrorKind,
    pub raw_os_error: Option<i32>,
    pub message: String,
    pub debug: String,
}

/// An error number of a system call, as far as the protocol tells them apart.
#[derive(Clone, Copy, Debug, PartialEq, Eq, Structural)]
pub enum Errno {
    /// Nothing is available right now.
    EAGAIN,
    /// A signal arrived before anything happened.
    EINTR,
    /// The peer closed while it still had unread bytes queued.
    ECONNRESET,
    /// Any other number.
    Other(i32),
}

/// A failed system call: its error number, and the same failure as an I/O
/// error.
#[derive(Debug, PartialEq, Eq)]
pub struct SysError {
    pub errno: Errno,
    pub error: IoError,
}

/// Encoding or decoding a message failed: the text that describes the error, and
/// the text of its debug output.
#[derive(Debug, PartialEq, Eq)]
pub struct CodecError {
    pub message: String,
    pub debug: String,
}

/// `head` followed by `tail`.
pub(crate) fn joined(head: &str, tail: &str) -> (text: String)
    ensures
        text@ == head@ + tail@,
{
    let mut text = head.to_string();
    text.append(tail);
    text
}

/// Creating an IPC channel pair failed.
#[derive(Debug)]
#[non_exhaustive]
pub enum ChannelCreateError {
    /// The underlying `socketpair` call failed, or one of the new descriptors
    /// could not be set up.
    CreateSocket(IoError),
}

impl ChannelCreateError {
    /// What `message` returns.
    pub open spec fn text(&self) -> Seq<char> {
        match self {
            ChannelCreateError::CreateSocket(err) => "Failed to create channel: "@ + err.message@,
        }
    }

    /// The error as a sentence.
    pub fn message(&self) -> (text: String)
        ensures
            text@ == self.text(),
    {
        match self {
            ChannelCreateError::CreateSocket(err) => joined(
                "Failed to create channel: ",
                err.message.as_str(),
            ),
        }
    }
}

/// The sentence about a message of `size` bytes where `max` are allowed.
pub open spec fn too_large_text(size: usize, max: usize) -> Seq<char> {
    "Message size "@ + decimal(size as nat) + " exceeds maximum "@ + decimal(max as nat)
}

fn too_large_message(size: usize, max: usize) -> (text: String)
    ensures
        text@ == too_large_text(size, max),
{
    let mut text = joined("Message size ", decimal_text(size as u64).as_str());
    text.append(" exceeds maximum ");
    text.append(decimal_text(max as u64).as_str());
    text
}

/// The debug output about a message of `size` bytes where `max` are allowed.
pub open spec fn too_large_debug(size: usize, max: usize) -> Seq<char> {
    "MessageTooLarge { size: "@ + decimal(size as nat) + ", max: "@ + decimal(max as nat) + " }"@
}

fn too_large_debug_text(size: usize, max: usize) -> (text: String)
    ensures
        text@ == too_large_debug(size, max),
{
    let mut text = joined("MessageTooLarge { size: ", decimal_text(size as u64).as_str());
    text.append(", max: ");
    text.append(decimal_text(max as u64).as_str());
    text.append(" }");
    text
}

/// The debug output of a variant that holds one value: its name, and the debug
/// output of the value in round brackets.
pub open spec fn variant_debug(name: Seq<char>, inner: Seq<char>) -> Seq<char> {
    name + "("@ + inner + ")"@
}

fn variant_debug_text(name: &str, inner: &str) -> (text: String)
    ensures
        text@ == variant_debug(name@, inner@),
{
    let mut text = joined(name, "(");
    text.append(inner);
    text.append(")");
    text
}

/// Sending a message over an IPC channel failed.
#[derive(Debug)]
#[non_exhaustive]
pub enum ChannelSendError {
    /// The message exceeds the wire format's maximum size. Nothing was
    /// written, so the channel remains usable.
    MessageTooLarge { size: usize, max: usize },
    /// Serializing the message failed. Nothing was written, so the channel
    /// remains usable.
    Encode(CodecError),
    /// Writing to the channel failed. A frame may have been written in part, so
    /// the sender is poisoned and every later send fails with
    /// `Desynchronized`.
    Io(IoError),
    /// The timeout of a send with a deadline expired before the whole message
    /// was written. Where part of it was, the sender is poisoned.
    Timeout,
    /// A previous send failed after it may have written part of a frame. Every
    /// send on a poisoned sender fails with this without touching the channel.
    Desynchronized,
}

impl ChannelSendError {
    /// What `message` returns.
    pub open spec fn text(&self) -> Seq<char> {
        match self {
            ChannelSendError::MessageTooLarge { size, max } => too_large_text(*size, *max),
            ChannelSendError::Encode(err) => "Failed to encode message: "@ + err.message@,
            ChannelSendError::Io(err) => "Failed to write to channel: "@ + err.message@,
            ChannelSendError::Timeout => "Timeout sending a message on the channel"@,
            ChannelSendError::Desynchronized =>
                "Sender desynchronized by a prior failed send; connection must be abandoned"@,
        }
    }

    /// The error as a sentence.
    pub fn message(&self) -> (text: String)
        ensures
            text@ == self.text(),
    {
        match self {
            ChannelSendError::MessageTooLarge { size, max } => too_large_message(*size, *max),
            ChannelSendError::Encode(err) => joined(
                "Failed to encode message: ",
                err.message.as_str(),
            ),
            ChannelSendError::Io(err) => joined(
                "Failed to write to channel: ",
                err.message.as_str(),
            ),
            ChannelSendError::Timeout => "Timeout sending a message on the channel".to_string(),
            ChannelSendError::Desynchronized =>
                "Sender desynchronized by a prior failed send; connection must be abandoned".to_string(),
        }
    }

    /// What `debug_message` returns.
    pub open spec fn debug_text(&self) -> Seq<char> {
        match self {
            ChannelSendError::MessageTooLarge { size, max } => too_large_debug(*size, *max),
            ChannelSendError::Encode(err) => variant_debug("Encode"@, err.debug@),
            ChannelSendError::Io(err) => variant_debug("Io"@, err.debug@),
            ChannelSendError::Timeout => "Timeout"@,
            ChannelSendError::Desynchronized => "Desynchronized"@,
        }
    }

    /// The error as debug output.
    pub fn debug_message(&self) -> (text: String)
        ensures
            text@ == self.debug_text(),
    {
        match self {
            ChannelSendError::MessageTooLarge { size, max } => too_large_debug_text(*size, *max),
            ChannelSendError::Encode(err) => variant_debug_text("Encode", err.debug.as_str()),
            ChannelSendError::Io(err) => variant_debug_text("Io", err.debug.as_str()),
            ChannelSendError::Timeout => "Timeout".to_string(),
            ChannelSendError::Desynchronized => "Desynchronized".to_string(),
        }
    }
}

/// Receiving a message from an IPC channel failed.
#[derive(Debug)]
#[non_exhaustive]
pub enum ChannelRecvError {
    /// The timeout expired before a full message arrived.
    Timeout,
    /// The sender closed its end of the channel, before or in the middle of a
    /// message.
    SenderClosed,
    /// The message's length prefix exceeds the wire format's maximum size.
    MessageTooLarge { size: usize, max: usize },
    /// A previous receive consumed part of a frame and then failed. Every
    /// receive on a poisoned receiver fails with this without touching the
    /// channel.
    Desynchronized,
    /// Deserializing the message failed.
    Decode(CodecError),
    /// Reading from the channel failed.
    Io(IoError),
}

impl ChannelRecvError {
    /// What `message` returns.
    pub open spec fn text(&self) -> Seq<char> {
        match self {
            ChannelRecvError::Timeout => "Timeout waiting for a message on the channel"@,
            ChannelRecvError::SenderClosed => "Sender closed the channel"@,
            ChannelRecvError::MessageTooLarge { size, max } => too_large_text(*size, *max),
            ChannelRecvError::Desynchronized =>
                "Receiver desynchronized by a prior partial receive; connection must be abandoned"@,
            ChannelRecvError::Decode(err) => "Failed to decode message: "@ + err.message@,
            ChannelRecvError::Io(err) => "Failed to read from channel: "@ + err.message@,
        }
    }

    /// The error as a sentence.
    pub fn message(&self) -> (text: String)
        ensures
            text@ == self.text(),
    {
        match self {
            ChannelRecvError::Timeout => "Timeout waiting for a message on the channel".to_string(),
            ChannelRecvError::SenderClosed => "Sender closed the channel".to_string(),
            ChannelRecvError::MessageTooLarge { size, max } => too_large_message(*size, *max),
            ChannelRecvError::Desynchronized =>
                "Receiver desynchronized by a prior partial receive; connection must be abandoned".to_string(),
            ChannelRecvError::Decode(err) => joined(
                "Failed to decode message: ",
                err.message.as_str(),
            ),
            ChannelRecvError::Io(err) => joined(
                "Failed to read from channel: ",
                err.message.as_str(),
            ),
        }
    }

    /// What `debug_message` returns.
    pub open spec fn debug_text(&self) -> Seq<char> {
        match self {
            ChannelRecvError::Timeout => "Timeout"@,
            ChannelRecvError::SenderClosed => "SenderClosed"@,
            ChannelRecvError::MessageTooLarge { size, max } => too_large_debug(*size, *max),
            ChannelRecvError::Desynchronized => "Desynchronized"@,
            ChannelRecvError::Decode(err) => variant_debug("Decode"@, err.debug@),
            ChannelRecvError::Io(err) => variant_debug("Io"@, err.debug@),
        }
    }

    /// The error as debug output.
    pub fn debug_message(&self) -> (text: String)
        ensures
            text@ == self.debug_text(),
    {
        match self {
            ChannelRecvError::Timeout => "Timeout".to_string(),
            ChannelRecvError::SenderClosed => "SenderClosed".to_string(),
            ChannelRecvError::MessageTooLarge { size, max } => too_large_debug_text(*size, *max),
            ChannelRecvError::Desynchronized => "Desynchronized".to_string(),
            ChannelRecvError::Decode(err) => variant_debug_text("Decode", err.debug.as_str()),
            ChannelRecvError::Io(err) => variant_debug_text("Io", err.debug.as_str()),
        }
    }
}

/// The build-id handshake between parent and daemon failed.
#[derive(Debug)]
#[non_exhaustive]
pub enum HandshakeError {
    /// Receiving the handshake bytes failed, because the spawned binary exited
    /// or hangs without writing a handshake.
    Recv(ChannelRecvError),
    /// The daemon sent bytes that are not valid UTF-8.
    InvalidUtf8(std::str::Utf8Error),
    /// The daemon's build id is not the one that the parent expected.
    Mismatch { expected: String, received: String },
}

impl HandshakeError {
    /// What `message` returns.
    pub open spec fn text(&self) -> Seq<char> {
        match self {
            HandshakeError::Recv(err) => "Failed to receive build-id handshake from daemon: "@
                + err.text(),
            HandshakeError::InvalidUtf8(_) => "Daemon sent a build-id that isn't valid UTF-8"@,
            HandshakeError::Mismatch { expected, received } =>
                "Parent and daemon binaries don't match (parent="@ + expected@ + ", daemon="@
                + received@ + "). Refusing to start."@,
        }
    }

    /// The error as a sentence.
    pub fn message(&self) -> (text: String)
        ensures
            text@ == self.text(),
    {
        match self {
            HandshakeError::Recv(err) => joined(
                "Failed to receive build-id handshake from daemon: ",
                err.message().as_str(),
            ),
            HandshakeError::InvalidUtf8(_) =>
                "Daemon sent a build-id that isn't valid UTF-8".to_string(),
            HandshakeError::Mismatch { expected, received } => {
                let mut text = joined(
                    "Parent and daemon binaries don't match (parent=",
                    expected.as_str(),
                );
                text.append(", daemon=");
                text.append(received.as_str());
                text.append("). Refusing to start.");
                text
            },
        }
    }
}

/// Spawning the daemon child process failed.
#[derive(Debug)]
#[non_exhaustive]
pub enum SpawnDaemonError {
    /// Creating the channel between parent and child failed.
    CreateChannel(ChannelCreateError),
    /// The path to re-exec could not be determined. The error's kind is
    /// `PermissionDenied` where the fallbacks that the invoker controls were
    /// refused, and `NotFound` where none of them yielded a path.
    ExePath(IoError),
    /// The spawn of the child process itself failed. The path is given by its
    /// bytes.
    Spawn { path: Vec<u8>, source: IoError },
    /// The spawned child failed the build-id handshake.
    Handshake(HandshakeError),
}

impl SpawnDaemonError {
    /// What `message` returns.
    pub open spec fn text(&self) -> Seq<char> {
        match self {
            SpawnDaemonError::CreateChannel(err) => "Failed to create IPC channel: "@ + err.text(),
            SpawnDaemonError::ExePath(err) =>
                "Failed to determine the executable path to re-exec: "@ + err.message@,
            SpawnDaemonError::Spawn { path, source } => "Failed to spawn daemon binary at "@
                + lossy_text(path@) + ": "@ + source.message@,
            SpawnDaemonError::Handshake(err) => err.text(),
        }
    }

    /// The error as a sentence.
    pub fn message(&self) -> (text: String)
        ensures
            text@ == self.text(),
    {
        match self {
            SpawnDaemonError::CreateChannel(err) => joined(
                "Failed to create IPC channel: ",
                err.message().as_str(),
            ),
            SpawnDaemonError::ExePath(err) => joined(
                "Failed to determine the executable path to re-exec: ",
                err.message.as_str(),
            ),
            SpawnDaemonError::Spawn { path, source } => {
                let mut text = joined(
                    "Failed to spawn daemon binary at ",
                    shown_bytes(path.as_slice()).as_str(),
                );
                text.append(": ");
                text.append(source.message.as_str());
                text
            },
            SpawnDaemonError::Handshake(err) => err.message(),
        }
    }
}

/// The daemon child could not claim the channel descriptor that it inherited
/// from its parent.
#[derive(Debug)]
#[non_exhaustive]
pub enum InheritedFdError {
    /// The descriptor was already claimed, or an earlier claim failed: the
    /// claim is one-way.
    AlreadyClaimed { channel_fd: i32 },
    /// The descriptor is not open.
    NotOpen { fd: i32, source: IoError },
    /// The descriptor is open but not a socket.
    NotASocket { fd: i32, st_mode: u32 },
    /// Restoring the close-on-exec flag failed, in the named operation.
    SetCloexec { fd: i32, operation: &'static str, source: IoError },
    /// Cloning the descriptor for the two halves of the channel failed.
    CloneFd { source: IoError },
}

impl InheritedFdError {
    /// What `message` returns.
    pub open spec fn text(&self) -> Seq<char> {
        match self {
            InheritedFdError::AlreadyClaimed { channel_fd } => "the inherited daemon channel fd ("@
                + signed_decimal(*channel_fd as int)
                + ") has already been claimed; rpc_server_from_inherited_fd must be called at most once per process"@,
            InheritedFdError::NotOpen { fd, source } => "fd "@ + signed_decimal(*fd as int)
                + " (daemon channel) is not open. This entry point is internal to this binary; do not invoke it directly. ("@
                + source.message@ + ")"@,
            InheritedFdError::NotASocket { fd, st_mode } => "fd "@ + signed_decimal(*fd as int)
                + " (daemon channel) is not a socket (st_mode=0o"@ + numeral(*st_mode as nat, 8)
                + "). This entry point is internal to this binary; do not invoke it directly."@,
            InheritedFdError::SetCloexec { fd, operation, source } => "fcntl("@ + operation@
                + ") failed restoring FD_CLOEXEC on fd "@ + signed_decimal(*fd as int)
                + " (daemon channel): "@ + source.message@,
            InheritedFdError::CloneFd { source } =>
                "failed to clone the daemon channel fd into its send/recv halves: "@
                + source.message@,
        }
    }

    /// The error as a sentence.
    pub fn message(&self) -> (text: String)
        ensures
            text@ == self.text(),
    {
        match self {
            InheritedFdError::AlreadyClaimed { channel_fd } => {
                let mut text = joined(
                    "the inherited daemon channel fd (",
                    signed_decimal_text(*channel_fd as i64).as_str(),
                );
                text.append(
                    ") has already been claimed; rpc_server_from_inherited_fd must be called at most once per process",
                );
                text
            },
            InheritedFdError::NotOpen { fd, source } => {
                let mut text = joined("fd ", signed_decimal_text(*fd as i64).as_str());
                text.append(
                    " (daemon channel) is not open. This entry point is internal to this binary; do not invoke it directly. (",
                );
                text.append(source.message.as_str());
                text.append(")");
                text
            },
            InheritedFdError::NotASocket { fd, st_mode } => {
                let mut text = joined("fd ", signed_decimal_text(*fd as i64).as_str());
                text.append(" (daemon channel) is not a socket (st_mode=0o");
                text.append(numeral_text(*st_mode as u64, 8).as_str());
                text.append(
                    "). This entry point is internal to this binary; do not invoke it directly.",
                );
                text
            },
            InheritedFdError::SetCloexec { fd, operation, source } => {
                let mut text = joined("fcntl(", operation);
                text.append(") failed restoring FD_CLOEXEC on fd ");
                text.append(signed_decimal_text(*fd as i64).as_str());
                text.append(" (daemon channel): ");
                text.append(source.message.as_str());
                text
            },
            InheritedFdError::CloneFd { source } => joined(
                "failed to clone the daemon channel fd into its send/recv halves: ",
                source.message.as_str(),
            ),
        }
    }
}

/// The sentence about a failed send says what failed: it ends with the text of
/// the error below it, where there is one, and names both numbers where the
/// message was too large.
pub proof fn law_send_error_says_what_failed(err: &ChannelSendError, text: String, debug: String)
    requires
        call_ensures(ChannelSendError::message, (err,), text),
        call_ensures(ChannelSendError::debug_message, (err,), debug),
    ensures
        err matches ChannelSendError::Encode(e) ==> ends_with(text@, e.message@) && ends_with(
            debug@,
            e.debug@ + ")"@,
        ) && begins_with(debug@, "Encode("@),
        err matches ChannelSendError::Io(e) ==> ends_with(text@, e.message@) && ends_with(
            debug@,
            e.debug@ + ")"@,
        ) && begins_with(debug@, "Io("@),
        err matches ChannelSendError::MessageTooLarge { size, max } ==> ends_with(
            text@,
            decimal(*size as nat) + (" exceeds maximum "@ + decimal(*max as nat)),
        ) && ends_with(
            debug@,
            decimal(*size as nat) + (", max: "@ + (decimal(*max as nat) + " }"@)),
        ),
        err is Desynchronized ==> debug@ == "Desynchronized"@,
        err is Timeout ==> debug@ == "Timeout"@,
{
    match err {
        ChannelSendError::Encode(e) => {
            lemma_ends_of_a_sum("Failed to encode message: "@, e.message@);
            reveal_strlit("Encode");
            reveal_strlit("(");
            reveal_strlit("Encode(");
            assert("Encode("@ =~= "Encode"@ + "("@);
            assert(debug@ =~= "Encode("@ + (e.debug@ + ")"@));
            lemma_ends_of_a_sum("Encode("@, e.debug@ + ")"@);
        },
        ChannelSendError::Io(e) => {
            lemma_ends_of_a_sum("Failed to write to channel: "@, e.message@);
            reveal_strlit("Io");
            reveal_strlit("(");
            reveal_strlit("Io(");
            assert("Io("@ =~= "Io"@ + "("@);
            assert(debug@ =~= "Io("@ + (e.debug@ + ")"@));
            lemma_ends_of_a_sum("Io("@, e.debug@ + ")"@);
        },
        ChannelSendError::MessageTooLarge { size, max } => {
            lemma_too_large_texts(*size, *max);
        },
        _ => {},
    }
}

proof fn lemma_too_large_texts(size: usize, max: usize)
    ensures
        ends_with(
            too_large_text(size, max),
            decimal(size as nat) + (" exceeds maximum "@ + decimal(max as nat)),
        ),
        ends_with(
            too_large_debug(size, max),
            decimal(size as nat) + (", max: "@ + (decimal(max as nat) + " }"@)),
        ),
{
    let tail = decimal(size as nat) + (" exceeds maximum "@ + decimal(max as nat));
    assert(too_large_text(size, max) =~= "Message size "@ + tail);
    lemma_ends_of_a_sum("Message size "@, tail);
    let tail = decimal(size as nat) + (", max: "@ + (decimal(max as nat) + " }"@));
    assert(too_large_debug(size, max) =~= "MessageTooLarge { size: "@ + tail);
    lemma_ends_of_a_sum("MessageTooLarge { size: "@, tail);
}

/// The sentence about a failed receive says what failed, in the same way.
pub proof fn law_recv_error_says_what_failed(err: &ChannelRecvError, text: String, debug: String)
    requires
        call_ensures(ChannelRecvError::message, (err,), text),
        call_ensures(ChannelRecvError::debug_message, (err,), debug),
    ensures
        err matches ChannelRecvError::Decode(e) ==> ends_with(text@, e.message@) && ends_with(
            debug@,
            e.debug@ + ")"@,
        ) && begins_with(debug@, "Decode("@),
        err matches ChannelRecvError::Io(e) ==> ends_with(text@, e.message@) && ends_with(
            debug@,
            e.debug@ + ")"@,
        ) && begins_with(debug@, "Io("@),
        err matches ChannelRecvError::MessageTooLarge { size, max } ==> ends_with(
            text@,
            decimal(*size as nat) + (" exceeds maximum "@ + decimal(*max as nat)),
        ) && ends_with(
            debug@,
            decimal(*size as nat) + (", max: "@ + (decimal(*max as nat) + " }"@)),
        ),
        err is Desynchronized ==> debug@ == "Desynchronized"@,
        err is SenderClosed ==> debug@ == "SenderClosed"@,
        err is Timeout ==> debug@ == "Timeout"@,
{
    match err {
        ChannelRecvError::Decode(e) => {
            lemma_ends_of_a_sum("Failed to decode message: "@, e.message@);
            reveal_strlit("Decode");
            reveal_strlit("(");
            reveal_strlit("Decode(");
            assert("Decode("@ =~= "Decode"@ + "("@);
            assert(debug@ =~= "Decode("@ + (e.debug@ + ")"@));
            lemma_ends_of_a_sum("Decode("@, e.debug@ + ")"@);
        },
        ChannelRecvError::Io(e) => {
            lemma_ends_of_a_sum("Failed to read from channel: "@, e.message@);
            reveal_strlit("Io");
            reveal_strlit("(");
            reveal_strlit("Io(");
            assert("Io("@ =~= "Io"@ + "("@);
            assert(debug@ =~= "Io("@ + (e.debug@ + ")"@));
            lemma_ends_of_a_sum("Io("@, e.debug@ + ")"@);
        },
        ChannelRecvError::MessageTooLarge { size, max } => {
            lemma_too_large_texts(*size, *max);
        },
        _ => {},
    }
}

/// The sentence about a failed spawn says what failed: it ends with the text of
/// the error below it, and a mismatch of build ids names both.
pub proof fn law_spawn_error_says_what_failed(
    err: &SpawnDaemonError,
    text: String,
    below: &HandshakeError,
    handshake: String,
    create: &ChannelCreateError,
    created: String,
)
    requires
        call_ensures(SpawnDaemonError::message, (err,), text),
        call_ensures(HandshakeError::message, (below,), handshake),
        call_ensures(ChannelCreateError::message, (create,), created),
    ensures
        err matches SpawnDaemonError::CreateChannel(e) ==> ends_with(text@, e.text()),
        err matches SpawnDaemonError::ExePath(e) ==> ends_with(text@, e.message@),
        err matches SpawnDaemonError::Spawn { path, source } ==> ends_with(
            text@,
            lossy_text(path@) + (": "@ + source.message@),
        ),
        err matches SpawnDaemonError::Handshake(e) ==> (e == *below ==> text@ == handshake@),
        below matches HandshakeError::Recv(e) ==> ends_with(handshake@, e.text()),
        below matches HandshakeError::Mismatch { expected, received } ==> ends_with(
            handshake@,
            "(parent="@ + (expected@ + (", daemon="@ + (received@ + "). Refusing to start."@))),
        ),
        create matches ChannelCreateError::CreateSocket(e) ==> ends_with(created@, e.message@),
{
    match err {
        SpawnDaemonError::CreateChannel(e) => {
            lemma_ends_of_a_sum("Failed to create IPC channel: "@, e.text());
        },
        SpawnDaemonError::ExePath(e) => {
            lemma_ends_of_a_sum("Failed to determine the executable path to re-exec: "@, e.message@);
        },
        SpawnDaemonError::Spawn { path, source } => {
            let tail = lossy_text(path@) + (": "@ + source.message@);
            assert(text@ =~= "Failed to spawn daemon binary at "@ + tail);
            lemma_ends_of_a_sum("Failed to spawn daemon binary at "@, tail);
        },
        SpawnDaemonError::Handshake(e) => {},
    }
    match below {
        HandshakeError::Recv(e) => {
            lemma_ends_of_a_sum("Failed to receive build-id handshake from daemon: "@, e.text());
        },
        HandshakeError::Mismatch { expected, received } => {
            reveal_strlit("Parent and daemon binaries don't match (parent=");
            reveal_strlit("Parent and daemon binaries don't match ");
            reveal_strlit("(parent=");
            assert("Parent and daemon binaries don't match (parent="@
                =~= "Parent and daemon binaries don't match "@ + "(parent="@);
            let tail = "(parent="@ + (expected@ + (", daemon="@ + (received@
                + "). Refusing to start."@)));
            assert(handshake@ =~= "Parent and daemon binaries don't match "@ + tail);
            lemma_ends_of_a_sum("Parent and daemon binaries don't match "@, tail);
        },
        _ => {},
    }
    match create {
        ChannelCreateError::CreateSocket(e) => {
            lemma_ends_of_a_sum("Failed to create channel: "@, e.message@);
        },
    }
}

/// The sentence about a failed claim names its descriptor and says what failed.
pub proof fn law_claim_error_says_what_failed(err: &InheritedFdError, text: String)
    requires
        call_ensures(InheritedFdError::message, (err,), text),
    ensures
        err matches InheritedFdError::NotOpen { fd, source } ==> begins_with(
            text@,
            "fd "@ + signed_decimal(*fd as int),
        ) && ends_with(text@, source.message@ + ")"@),
        err matches InheritedFdError::NotASocket { fd, st_mode } ==> begins_with(
            text@,
            "fd "@ + signed_decimal(*fd as int) + " (daemon channel) is not a socket (st_mode=0o"@
                + numeral(*st_mode as nat, 8),
        ),
        err matches InheritedFdError::SetCloexec { fd, operation, source } ==> begins_with(
            text@,
            "fcntl("@ + operation@ + ") failed"@,
        ) && ends_with(text@, source.message@),
        err matches InheritedFdError::CloneFd { source } ==> ends_with(text@, source.message@),
        err matches InheritedFdError::AlreadyClaimed { channel_fd } ==> begins_with(
            text@,
            "the inherited daemon channel fd ("@ + signed_decimal(*channel_fd as int),
        ),
{
    match err {
        InheritedFdError::NotOpen { fd, source } => {
            let head = "fd "@ + signed_decimal(*fd as int);
            let middle =
                " (daemon channel) is not open. This entry point is internal to this binary; do not invoke it directly. ("@;
            assert(text@ =~= head + (middle + source.message@ + ")"@));
            lemma_ends_of_a_sum(head, middle + source.message@ + ")"@);
            assert(text@ =~= (head + middle) + (source.message@ + ")"@));
            lemma_ends_of_a_sum(head + middle, source.message@ + ")"@);
        },
        InheritedFdError::NotASocket { fd, st_mode } => {
            let head = "fd "@ + signed_decimal(*fd as int)
                + " (daemon channel) is not a socket (st_mode=0o"@ + numeral(*st_mode as nat, 8);
            lemma_ends_of_a_sum(
                head,
                "). This entry point is internal to this binary; do not invoke it directly."@,
            );
        },
        InheritedFdError::SetCloexec { fd, operation, source } => {
            reveal_strlit(") failed");
            reveal_strlit(" restoring FD_CLOEXEC on fd ");
            reveal_strlit(") failed restoring FD_CLOEXEC on fd ");
            assert(") failed restoring FD_CLOEXEC on fd "@ =~= ") failed"@
                + " restoring FD_CLOEXEC on fd "@);
            let head = "fcntl("@ + operation@ + ") failed"@;
            let middle = " restoring FD_CLOEXEC on fd "@ + signed_decimal(*fd as int)
                + " (daemon channel): "@;
            assert(text@ =~= head + (middle + source.message@));
            lemma_ends_of_a_sum(head, middle + source.message@);
            assert(text@ =~= (head + middle) + source.message@);
            lemma_ends_of_a_sum(head + middle, source.message@);
        },
        InheritedFdError::CloneFd { source } => {
            lemma_ends_of_a_sum(
                "failed to clone the daemon channel fd into its send/recv halves: "@,
                source.message@,
            );
        },
        InheritedFdError::AlreadyClaimed { channel_fd } => {
            lemma_ends_of_a_sum(
                "the inherited daemon channel fd ("@ + signed_decimal(*channel_fd as int),
                ") has already been claimed; rpc_server_from_inherited_fd must be called at most once per process"@,
            );
        },
    }
}

/// The wording of a failed send or receive is the same for every error below it:
/// what stands before that error's own text does not depend on the error.
pub proof fn law_wording_of_a_channel_error_is_fixed(
    io: IoError,
    other_io: IoError,
    codec: CodecError,
    other_codec: CodecError,
    size: usize,
    max: usize,
    other_size: usize,
)
    ensures
        lead(ChannelSendError::Io(io).text(), io.message@) == lead(
            ChannelSendError::Io(other_io).text(),
            other_io.message@,
        ),
        lead(ChannelSendError::Encode(codec).text(), codec.message@) == lead(
            ChannelSendError::Encode(other_codec).text(),
            other_codec.message@,
        ),
        lead(ChannelRecvError::Io(io).text(), io.message@) == lead(
            ChannelRecvError::Io(other_io).text(),
            other_io.message@,
        ),
        lead(ChannelRecvError::Decode(codec).text(), codec.message@) == lead(
            ChannelRecvError::Decode(other_codec).text(),
            other_codec.message@,
        ),
        (ChannelSendError::MessageTooLarge { size, max }).text()
            == (ChannelRecvError::MessageTooLarge { size, max }).text(),
        lead(
            (ChannelSendError::MessageTooLarge { size, max }).text(),
            decimal(size as nat) + (" exceeds maximum "@ + decimal(max as nat)),
        ) == lead(
            (ChannelSendError::MessageTooLarge { size: other_size, max }).text(),
            decimal(other_size as nat) + (" exceeds maximum "@ + decimal(max as nat)),
        ),
        (ChannelSendError::MessageTooLarge { size, max }).debug_text()
            == (ChannelRecvError::MessageTooLarge { size, max }).debug_text(),
        ChannelSendError::Io(io).debug_text() == ChannelRecvError::Io(io).debug_text(),
{
    lemma_ends_of_a_sum("Failed to write to channel: "@, io.message@);
    lemma_ends_of_a_sum("Failed to write to channel: "@, other_io.message@);
    lemma_ends_of_a_sum("Failed to encode message: "@, codec.message@);
    lemma_ends_of_a_sum("Failed to encode message: "@, other_codec.message@);
    lemma_ends_of_a_sum("Failed to read from channel: "@, io.message@);
    lemma_ends_of_a_sum("Failed to read from channel: "@, other_io.message@);
    lemma_ends_of_a_sum("Failed to decode message: "@, codec.message@);
    lemma_ends_of_a_sum("Failed to decode message: "@, other_codec.message@);
    let tail = decimal(size as nat) + (" exceeds maximum "@ + decimal(max as nat));
    assert(too_large_text(size, max) =~= "Message size "@ + tail);
    lemma_ends_of_a_sum("Message size "@, tail);
    let tail = decimal(other_size as nat) + (" exceeds maximum "@ + decimal(max as nat));
    assert(too_large_text(other_size, max) =~= "Message size "@ + tail);
    lemma_ends_of_a_sum("Message size "@, tail);
}

/// The wording of a failed spawn is the same for every error below it, and a
/// failed handshake is worded alike in a spawn and by itself.
pub proof fn law_wording_of_a_spawn_error_is_fixed(
    create: ChannelCreateError,
    other_create: ChannelCreateError,
    io: IoError,
    other_io: IoError,
    path: Vec<u8>,
    other_path: Vec<u8>,
    recv: ChannelRecvError,
    other_recv: ChannelRecvError,
    handshake: HandshakeError,
)
    ensures
        lead(SpawnDaemonError::CreateChannel(create).text(), create.text()) == lead(
            SpawnDaemonError::CreateChannel(other_create).text(),
            other_create.text(),
        ),
        lead(ChannelCreateError::CreateSocket(io).text(), io.message@) == lead(
            ChannelCreateError::CreateSocket(other_io).text(),
            other_io.message@,
        ),
        lead(SpawnDaemonError::ExePath(io).text(), io.message@) == lead(
            SpawnDaemonError::ExePath(other_io).text(),
            other_io.message@,
        ),
        lead(
            (SpawnDaemonError::Spawn { path, source: io }).text(),
            lossy_text(path@) + (": "@ + io.message@),
        ) == lead(
            (SpawnDaemonError::Spawn { path: other_path, source: other_io }).text(),
            lossy_text(other_path@) + (": "@ + other_io.message@),
        ),
        lead(HandshakeError::Recv(recv).text(), recv.text()) == lead(
            HandshakeError::Recv(other_recv).text(),
            other_recv.text(),
        ),
        SpawnDaemonError::Handshake(handshake).text() == handshake.text(),
{
    lemma_ends_of_a_sum("Failed to create IPC channel: "@, create.text());
    lemma_ends_of_a_sum("Failed to create IPC channel: "@, other_create.text());
    lemma_ends_of_a_sum("Failed to create channel: "@, io.message@);
    lemma_ends_of_a_sum("Failed to create channel: "@, other_io.message@);
    lemma_ends_of_a_sum("Failed to determine the executable path to re-exec: "@, io.message@);
    lemma_ends_of_a_sum("Failed to determine the executable path to re-exec: "@, other_io.message@);
    let tail = lossy_text(path@) + (": "@ + io.message@);
    assert((SpawnDaemonError::Spawn { path, source: io }).text()
        =~= "Failed to spawn daemon binary at "@ + tail);
    lemma_ends_of_a_sum("Failed to spawn daemon binary at "@, tail);
    let tail = lossy_text(other_path@) + (": "@ + other_io.message@);
    assert((SpawnDaemonError::Spawn { path: other_path, source: other_io }).text()
        =~= "Failed to spawn daemon binary at "@ + tail);
    lemma_ends_of_a_sum("Failed to spawn daemon binary at "@, tail);
    lemma_ends_of_a_sum("Failed to receive build-id handshake from daemon: "@, recv.text());
    lemma_ends_of_a_sum("Failed to receive build-id handshake from daemon: "@, other_recv.text());
}

} // verus!
