//! Startup in a single image: a daemon that learns its role from an environment
//! marker, holds its channel as two pipes, and is handed a payload before its
//! first request.

use vstd::prelude::*;

use crate::channel::frame::prefix_bytes;
use crate::channel::sender::{send_begin, SendNext, SendStep, Sender};
use crate::error::{
    joined, ChannelRecvError, ChannelSendError, CodecError, HandshakeError, IoError, SysError,
};
use crate::spawn::inherited::{set_cloexec, ClaimGuard, FD_CLOEXEC, S_IFMT};
use crate::spawn::process::{opt_view, CleanupAction, SpawnRequest};
use crate::text::{
    begins_with, ends_with, lead, lemma_ends_of_a_sum, numeral, numeral_text, signed_decimal,
    signed_decimal_text,
};

verus! {

/// The file type of a pipe.
pub const S_IFIFO: u32 = 0o010000;

/// The descriptor on which the daemon reads requests.
pub const CHILD_REQUEST_RECV_FD: i32 = 3;

/// The descriptor on which the daemon writes responses.
pub const CHILD_RESPONSE_SEND_FD: i32 = 4;

/// How many seconds each side waits for the other during the bootstrap.
pub const BOOTSTRAP_TIMEOUT_SECS: u64 = 10;

/// The marker's value for a daemon child: the byte of the digit one.
pub const DAEMON_CHILD_MARKER: u8 = 0x31;

/// Which role the environment marker selects.
#[derive(Clone, Copy, Debug, PartialEq, Eq, Structural)]
pub enum DispatchDecision {
    Foreground,
    DaemonChild,
}

/// Decide the role. Only the exact marker value counts, and anything else is
/// the foreground.
pub fn dispatch_decision(marker: Option<&[u8]>) -> (decision: DispatchDecision)
    ensures
        decision == (if (marker matches Some(value) && value@ == seq![DAEMON_CHILD_MARKER]) {
            DispatchDecision::DaemonChild
        } else {
            DispatchDecision::Foreground
        }),
{
    match marker {
        Some(value) => if value.len() == 1 && value[0] == DAEMON_CHILD_MARKER {
            assert(value@ =~= seq![DAEMON_CHILD_MARKER]);
            DispatchDecision::DaemonChild
        } else {
            DispatchDecision::Foreground
        },
        None => DispatchDecision::Foreground,
    }
}

/// The daemon child could not claim the two pipe descriptors that it inherited
/// from its parent.
#[derive(Debug)]
#[non_exhaustive]
pub enum InheritedFdsError {
    /// The descriptors were already claimed.
    AlreadyClaimed { request_recv_fd: i32, response_send_fd: i32 },
    /// A descriptor is not open.
    NotOpen { fd: i32, label: &'static str, source: IoError },
    /// A descriptor is open but not a pipe.
    NotAPipe { fd: i32, label: &'static str, st_mode: u32 },
    /// Close-on-exec could not be restored on a descriptor.
    SetCloexec { fd: i32, label: &'static str, operation: &'static str, source: IoError },
}

impl InheritedFdsError {
    /// What `message` returns.
    pub open spec fn text(&self) -> Seq<char> {
        match self {
            InheritedFdsError::AlreadyClaimed { request_recv_fd, response_send_fd } =>
                "the inherited daemon fds ("@ + signed_decimal(*request_recv_fd as int) + " and "@
                    + signed_decimal(*response_send_fd as int) + ") have already been claimed"@,
            InheritedFdsError::NotOpen { fd, label, source } => "fd "@ + signed_decimal(*fd as int)
                + " ("@ + label@ + ") is not open. ("@ + source.message@ + ")"@,
            InheritedFdsError::NotAPipe { fd, label, st_mode } => "fd "@ + signed_decimal(
                *fd as int,
            ) + " ("@ + label@ + ") is not a pipe (st_mode=0o"@ + numeral(*st_mode as nat, 8)
                + ")."@,
            InheritedFdsError::SetCloexec { fd, label, operation, source } => "fcntl("@
                + operation@ + ") failed restoring FD_CLOEXEC on fd "@ + signed_decimal(*fd as int)
                + " ("@ + label@ + "): "@ + source.message@,
        }
    }

    /// The error as a sentence.
    pub fn message(&self) -> (text: String)
        ensures
            text@ == self.text(),
    {
        match self {
            InheritedFdsError::AlreadyClaimed { request_recv_fd, response_send_fd } => {
                let mut text = joined(
                    "the inherited daemon fds (",
                    signed_decimal_text(*request_recv_fd as i64).as_str(),
                );
                text.append(" and ");
                text.append(signed_decimal_text(*response_send_fd as i64).as_str());
                text.append(") have already been claimed");
                text
            },
            InheritedFdsError::NotOpen { fd, label, source } => {
                let mut text = joined("fd ", signed_decimal_text(*fd as i64).as_str());
                text.append(" (");
                text.append(*label);
                text.append(") is not open. (");
                text.append(source.message.as_str());
                text.append(")");
                text
            },
            InheritedFdsError::NotAPipe { fd, label, st_mode } => {
                let mut text = joined("fd ", signed_decimal_text(*fd as i64).as_str());
                text.append(" (");
                text.append(*label);
                text.append(") is not a pipe (st_mode=0o");
                text.append(numeral_text(*st_mode as u64, 8).as_str());
                text.append(").");
                text
            },
            InheritedFdsError::SetCloexec { fd, label, operation, source } => {
                let mut text = joined("fcntl(", *operation);
                text.append(") failed restoring FD_CLOEXEC on fd ");
                text.append(signed_decimal_text(*fd as i64).as_str());
                text.append(" (");
                text.append(*label);
                text.append("): ");
                text.append(source.message.as_str());
                text
            },
        }
    }
}

/// Where a claim of the two pipes stands.
#[derive(Debug)]
pub enum PipeClaimStep {
    /// Ask for the file mode of this descriptor.
    Stat { fd: i32 },
    /// Read the descriptor flags of this descriptor.
    GetFlags { fd: i32 },
    /// Set these descriptor flags on this descriptor.
    SetFlags { fd: i32, flags: i32 },
    /// The claim is over; where it succeeded, the descriptors are ours.
    Done(Result<(), InheritedFdsError>),
}

/// How one step of a claim of the two pipes went.
#[derive(Debug)]
pub enum PipeClaimEvent {
    /// The file mode of this descriptor.
    Stat { fd: i32, st_mode: Result<u32, IoError> },
    /// The descriptor flags of this descriptor.
    GetFlags { fd: i32, flags: Result<i32, IoError> },
    /// How setting the descriptor flags of this descriptor went.
    SetFlags { fd: i32, set: Result<(), IoError> },
}

/// Begin to claim the two pipes. The guard is set before anything is checked and
/// never cleared.
pub fn rpc_server_from_inherited_fds(guard: &mut ClaimGuard) -> (step: PipeClaimStep)
    ensures
        final(guard).claimed(),
        old(guard).claimed() ==> step == PipeClaimStep::Done(
            Err(
                InheritedFdsError::AlreadyClaimed {
                    request_recv_fd: CHILD_REQUEST_RECV_FD,
                    response_send_fd: CHILD_RESPONSE_SEND_FD,
                },
            ),
        ),
        !old(guard).claimed() ==> step == (PipeClaimStep::Stat { fd: CHILD_REQUEST_RECV_FD }),
{
    if guard.is_claimed() {
        return PipeClaimStep::Done(
            Err(
                InheritedFdsError::AlreadyClaimed {
                    request_recv_fd: CHILD_REQUEST_RECV_FD,
                    response_send_fd: CHILD_RESPONSE_SEND_FD,
                },
            ),
        );
    }
    *guard = ClaimGuard::new(true);
    PipeClaimStep::Stat { fd: CHILD_REQUEST_RECV_FD }
}

/// What the descriptor is for.
pub open spec fn pipe_label(fd: i32) -> &'static str {
    if fd == CHILD_REQUEST_RECV_FD {
        "request-recv"
    } else {
        "response-send"
    }
}

/// What a claim of the two pipes does after `event`: both descriptors have to be
/// pipes, and then close-on-exec is restored on both. Each time the one for
/// requests comes first.
pub open spec fn pipe_claim_next(event: PipeClaimEvent) -> PipeClaimStep {
    match event {
        PipeClaimEvent::Stat { fd, st_mode: Err(source) } => PipeClaimStep::Done(
            Err(InheritedFdsError::NotOpen { fd, label: pipe_label(fd), source }),
        ),
        PipeClaimEvent::Stat { fd, st_mode: Ok(mode) } => if mode & S_IFMT != S_IFIFO {
            PipeClaimStep::Done(
                Err(InheritedFdsError::NotAPipe { fd, label: pipe_label(fd), st_mode: mode }),
            )
        } else if fd == CHILD_REQUEST_RECV_FD {
            PipeClaimStep::Stat { fd: CHILD_RESPONSE_SEND_FD }
        } else {
            PipeClaimStep::GetFlags { fd: CHILD_REQUEST_RECV_FD }
        },
        PipeClaimEvent::GetFlags { fd, flags: Err(source) } => PipeClaimStep::Done(
            Err(
                InheritedFdsError::SetCloexec {
                    fd,
                    label: pipe_label(fd),
                    operation: "F_GETFD",
                    source,
                },
            ),
        ),
        PipeClaimEvent::GetFlags { fd, flags: Ok(flags) } => PipeClaimStep::SetFlags {
            fd,
            flags: flags | FD_CLOEXEC,
        },
        PipeClaimEvent::SetFlags { fd, set: Err(source) } => PipeClaimStep::Done(
            Err(
                InheritedFdsError::SetCloexec {
                    fd,
                    label: pipe_label(fd),
                    operation: "F_SETFD",
                    source,
                },
            ),
        ),
        PipeClaimEvent::SetFlags { fd, set: Ok(_) } => if fd == CHILD_REQUEST_RECV_FD {
            PipeClaimStep::GetFlags { fd: CHILD_RESPONSE_SEND_FD }
        } else {
            PipeClaimStep::Done(Ok(()))
        },
    }
}

/// Go on with a claim of the two pipes.
pub fn pipe_claim_after(event: PipeClaimEvent) -> (step: PipeClaimStep)
    ensures
        step == pipe_claim_next(event),
{
    let fd: i32 = match &event {
        PipeClaimEvent::Stat { fd, st_mode: _ } => *fd,
        PipeClaimEvent::GetFlags { fd, flags: _ } => *fd,
        PipeClaimEvent::SetFlags { fd, set: _ } => *fd,
    };
    let label: &'static str = if fd == CHILD_REQUEST_RECV_FD {
        "request-recv"
    } else {
        "response-send"
    };
    match event {
        PipeClaimEvent::Stat { fd: _, st_mode } => match st_mode {
            Err(source) => PipeClaimStep::Done(
                Err(InheritedFdsError::NotOpen { fd, label, source }),
            ),
            Ok(mode) => if mode & S_IFMT != S_IFIFO {
                PipeClaimStep::Done(Err(InheritedFdsError::NotAPipe { fd, label, st_mode: mode }))
            } else if fd == CHILD_REQUEST_RECV_FD {
                PipeClaimStep::Stat { fd: CHILD_RESPONSE_SEND_FD }
            } else {
                PipeClaimStep::GetFlags { fd: CHILD_REQUEST_RECV_FD }
            },
        },
        PipeClaimEvent::GetFlags { fd: _, flags } => match flags {
            Err(source) => PipeClaimStep::Done(
                Err(InheritedFdsError::SetCloexec { fd, label, operation: "F_GETFD", source }),
            ),
            Ok(flags) => PipeClaimStep::SetFlags { fd, flags: set_cloexec(flags) },
        },
        PipeClaimEvent::SetFlags { fd: _, set } => match set {
            Err(source) => PipeClaimStep::Done(
                Err(InheritedFdsError::SetCloexec { fd, label, operation: "F_SETFD", source }),
            ),
            Ok(()) => if fd == CHILD_REQUEST_RECV_FD {
                PipeClaimStep::GetFlags { fd: CHILD_RESPONSE_SEND_FD }
            } else {
                PipeClaimStep::Done(Ok(()))
            },
        },
    }
}

/// Whether `event` answers what a claim of the two pipes was told to do.
pub open spec fn answers_pipe_claim(step: PipeClaimStep, event: PipeClaimEvent) -> bool {
    match step {
        PipeClaimStep::Stat { fd } => event matches PipeClaimEvent::Stat { fd: f, st_mode } && f
            == fd,
        PipeClaimStep::GetFlags { fd } => event matches PipeClaimEvent::GetFlags { fd: f, flags }
            && f == fd,
        PipeClaimStep::SetFlags { fd, flags } => event matches PipeClaimEvent::SetFlags {
            fd: f,
            set,
        } && f == fd,
        PipeClaimStep::Done(_) => false,
    }
}

/// Whether `events` is a run of the first claim of the two pipes in a process.
pub open spec fn pipe_claim_trace(events: Seq<PipeClaimEvent>) -> bool {
    &&& events.len() > 0
    &&& answers_pipe_claim(PipeClaimStep::Stat { fd: CHILD_REQUEST_RECV_FD }, events[0])
    &&& forall|i: int|
        0 < i < events.len() ==> answers_pipe_claim(
            pipe_claim_next(events[i - 1]),
            #[trigger] events[i],
        )
}

/// A claim that succeeds has found both descriptors to be pipes, and has then
/// set close-on-exec on each of them with its other flags kept: no process that
/// the daemon starts later inherits an end of its channel.
pub proof fn law_claimed_pipes_are_closed_on_exec(events: Seq<PipeClaimEvent>)
    requires
        pipe_claim_trace(events),
        pipe_claim_next(events.last()) == PipeClaimStep::Done(Ok::<(), InheritedFdsError>(())),
    ensures
        events.len() == 6,
        events[0] matches PipeClaimEvent::Stat { fd, st_mode: Ok(mode) } && fd
            == CHILD_REQUEST_RECV_FD && mode & S_IFMT == S_IFIFO,
        events[1] matches PipeClaimEvent::Stat { fd, st_mode: Ok(mode) } && fd
            == CHILD_RESPONSE_SEND_FD && mode & S_IFMT == S_IFIFO,
        events[2] matches PipeClaimEvent::GetFlags { fd, flags: Ok(flags) } && fd
            == CHILD_REQUEST_RECV_FD && pipe_claim_next(events[2]) == (PipeClaimStep::SetFlags {
            fd,
            flags: flags | FD_CLOEXEC,
        }) && (flags | FD_CLOEXEC) & FD_CLOEXEC == FD_CLOEXEC,
        events[3] matches PipeClaimEvent::SetFlags { fd, set: Ok(_) } && fd
            == CHILD_REQUEST_RECV_FD,
        events[4] matches PipeClaimEvent::GetFlags { fd, flags: Ok(flags) } && fd
            == CHILD_RESPONSE_SEND_FD && pipe_claim_next(events[4]) == (PipeClaimStep::SetFlags {
            fd,
            flags: flags | FD_CLOEXEC,
        }) && (flags | FD_CLOEXEC) & FD_CLOEXEC == FD_CLOEXEC,
        events[5] matches PipeClaimEvent::SetFlags { fd, set: Ok(_) } && fd
            == CHILD_RESPONSE_SEND_FD,
{
    if events.len() > 1 {
        assert(answers_pipe_claim(pipe_claim_next(events[0]), events[1]));
    }
    if events.len() > 2 {
        assert(answers_pipe_claim(pipe_claim_next(events[1]), events[2]));
    }
    if events.len() > 3 {
        assert(answers_pipe_claim(pipe_claim_next(events[2]), events[3]));
    }
    if events.len() > 4 {
        assert(answers_pipe_claim(pipe_claim_next(events[3]), events[4]));
    }
    if events.len() > 5 {
        assert(answers_pipe_claim(pipe_claim_next(events[4]), events[5]));
    }
    if events.len() > 6 {
        assert(answers_pipe_claim(pipe_claim_next(events[5]), events[6]));
    }
    if let PipeClaimEvent::GetFlags { fd: _, flags: Ok(flags) } = events[2] {
        assert((flags | 1i32) & 1i32 == 1i32) by (bit_vector);
    }
    if let PipeClaimEvent::GetFlags { fd: _, flags: Ok(flags) } = events[4] {
        assert((flags | 1i32) & 1i32 == 1i32) by (bit_vector);
    }
}

/// What to spawn in order to re-exec the running binary as a daemon in a single
/// image: the path to re-exec under the name of the running executable where
/// that is known, no arguments, the marker in the environment, and nothing
/// queued.
pub fn bootstrap_spawn_request(exe: Vec<u8>, current_exe: Option<Vec<u8>>) -> (request: SpawnRequest)
    ensures
        request.exe == exe,
        opt_view(request.argv0) == match current_exe {
            Some(path) => Some(path@),
            None => Some(exe@),
        },
        request.args@.len() == 0,
        request.extra_env@.len() == 1,
        request.extra_env@[0].0@ == vstd::utf8::encode_utf8("DAEMONIZABLE_DAEMON_CHILD"@),
        request.extra_env@[0].1@ == seq![DAEMON_CHILD_MARKER],
        request.prequeue is None,
{
    let argv0 = match current_exe {
        Some(path) => path,
        None => vstd::slice::slice_to_vec(exe.as_slice()),
    };
    let name = vstd::slice::slice_to_vec("DAEMONIZABLE_DAEMON_CHILD".as_bytes());
    let mut value: Vec<u8> = Vec::new();
    value.push(DAEMON_CHILD_MARKER);
    assert(value@ =~= seq![DAEMON_CHILD_MARKER]);
    let mut env: Vec<(Vec<u8>, Vec<u8>)> = Vec::new();
    env.push((name, value));
    SpawnRequest { exe, argv0: Some(argv0), args: Vec::new(), extra_env: env, prequeue: None }
}

/// How a spawn in a single image ends: what to do to the child, in this order,
/// and what to return.
#[derive(Debug)]
pub struct BootstrapCompletion<C> {
    pub actions: Vec<CleanupAction>,
    pub result: Result<C, BootstrapError>,
}

/// Complete a spawn in a single image, given how its bootstrap went. The child
/// is the daemon: after a success it is left alone, and after a failure it is
/// killed and then reaped.
pub fn complete_bootstrap<C>(client: C, bootstrapped: Result<(), BootstrapError>) -> (completion:
    BootstrapCompletion<C>)
    ensures
        bootstrapped is Ok ==> completion.actions@.len() == 0 && completion.result == Ok::<
            C,
            BootstrapError,
        >(client),
        bootstrapped matches Err(err) ==> completion.actions@ == seq![
            CleanupAction::KillChild,
            CleanupAction::Reap,
        ] && completion.result == Err::<C, BootstrapError>(err),
{
    let mut actions: Vec<CleanupAction> = Vec::new();
    match bootstrapped {
        Ok(()) => BootstrapCompletion { actions, result: Ok(client) },
        Err(err) => {
            actions.push(CleanupAction::KillChild);
            actions.push(CleanupAction::Reap);
            assert(actions@ =~= seq![CleanupAction::KillChild, CleanupAction::Reap]);
            BootstrapCompletion { actions, result: Err(err) }
        },
    }
}

/// The daemon did not acknowledge the payload.
#[derive(Debug)]
pub enum BootstrapAckError {
    /// Receiving the acknowledgement failed.
    Recv(ChannelRecvError),
    /// The acknowledgement is not empty.
    NonEmptyAck { len: usize },
}

/// Begin to acknowledge the payload: the acknowledgement is an empty frame.
pub fn send_raw_bootstrap_ack(sender: &Sender) -> (step: SendStep)
    ensures
        step@ == send_begin(sender.poisoned(), Seq::empty()),
{
    sender.send_raw(Vec::new())
}

/// Check the acknowledgement that came in.
pub fn recv_raw_bootstrap_ack(received: Result<Vec<u8>, ChannelRecvError>) -> (verdict: Result<
    (),
    BootstrapAckError,
>)
    ensures
        received matches Err(err) ==> verdict == Err::<(), BootstrapAckError>(
            BootstrapAckError::Recv(err),
        ),
        received matches Ok(bytes) ==> verdict == (if bytes@.len() == 0 {
            Ok(())
        } else {
            Err(BootstrapAckError::NonEmptyAck { len: bytes@.len() as usize })
        }),
{
    match received {
        Err(err) => Err(BootstrapAckError::Recv(err)),
        Ok(bytes) => if bytes.len() > 0 {
            Err(BootstrapAckError::NonEmptyAck { len: bytes.len() })
        } else {
            Ok(())
        },
    }
}

/// The parent's part of the bootstrap failed.
#[derive(Debug)]
#[non_exhaustive]
pub enum BootstrapError {
    /// The build-id handshake failed.
    Handshake(HandshakeError),
    /// Sending the payload failed.
    SendPayload(ChannelSendError),
    /// Receiving the acknowledgement failed.
    RecvAck(ChannelRecvError),
    /// The acknowledgement is not empty.
    MalformedAck { len: usize },
}

/// How the last step of the parent's bootstrap went.
#[derive(Debug)]
pub enum BootstrapEvent {
    /// The verdict on the build-id handshake.
    Handshake(Result<(), HandshakeError>),
    /// How sending the payload went.
    PayloadSent(Result<(), ChannelSendError>),
    /// The acknowledgement, or why there is none.
    AckReceived(Result<Vec<u8>, ChannelRecvError>),
}

/// What the parent's bootstrap does next.
#[derive(Debug)]
pub enum BootstrapStep {
    /// Send the payload as one raw frame, bounded by this many seconds.
    SendPayload { timeout_secs: u64 },
    /// Receive the acknowledgement, bounded by this many seconds.
    ReceiveAck { timeout_secs: u64 },
    /// The bootstrap is over.
    Done(Result<(), BootstrapError>),
}

/// What the parent's bootstrap does after `event`.
pub open spec fn bootstrap_next(event: BootstrapEvent) -> BootstrapStep {
    match event {
        BootstrapEvent::Handshake(Ok(_)) => BootstrapStep::SendPayload {
            timeout_secs: BOOTSTRAP_TIMEOUT_SECS,
        },
        BootstrapEvent::Handshake(Err(err)) => BootstrapStep::Done(
            Err(BootstrapError::Handshake(err)),
        ),
        BootstrapEvent::PayloadSent(Ok(_)) => BootstrapStep::ReceiveAck {
            timeout_secs: BOOTSTRAP_TIMEOUT_SECS,
        },
        BootstrapEvent::PayloadSent(Err(err)) => BootstrapStep::Done(
            Err(BootstrapError::SendPayload(err)),
        ),
        BootstrapEvent::AckReceived(Ok(bytes)) => if bytes@.len() == 0 {
            BootstrapStep::Done(Ok(()))
        } else {
            BootstrapStep::Done(Err(BootstrapError::MalformedAck { len: bytes@.len() as usize }))
        },
        BootstrapEvent::AckReceived(Err(err)) => BootstrapStep::Done(
            Err(BootstrapError::RecvAck(err)),
        ),
    }
}

/// The parent's bootstrap: once the build ids match, ship the payload and wait
/// for the empty acknowledgement. Neither is waited for without a bound, so that
/// a child that stops running is cleaned up.
pub fn handshake_and_ship_bootstrap(event: BootstrapEvent) -> (step: BootstrapStep)
    ensures
        step == bootstrap_next(event),
{
    match event {
        BootstrapEvent::Handshake(Ok(())) => BootstrapStep::SendPayload {
            timeout_secs: BOOTSTRAP_TIMEOUT_SECS,
        },
        BootstrapEvent::Handshake(Err(err)) => BootstrapStep::Done(
            Err(BootstrapError::Handshake(err)),
        ),
        BootstrapEvent::PayloadSent(Ok(())) => BootstrapStep::ReceiveAck {
            timeout_secs: BOOTSTRAP_TIMEOUT_SECS,
        },
        BootstrapEvent::PayloadSent(Err(err)) => BootstrapStep::Done(
            Err(BootstrapError::SendPayload(err)),
        ),
        BootstrapEvent::AckReceived(received) => match recv_raw_bootstrap_ack(received) {
            Ok(()) => BootstrapStep::Done(Ok(())),
            Err(BootstrapAckError::NonEmptyAck { len }) => BootstrapStep::Done(
                Err(BootstrapError::MalformedAck { len }),
            ),
            Err(BootstrapAckError::Recv(err)) => BootstrapStep::Done(
                Err(BootstrapError::RecvAck(err)),
            ),
        },
    }
}

/// How the last step of the daemon child's startup went.
#[derive(Debug)]
pub enum ChildEvent {
    /// The startup begins.
    Started,
    /// How the claim of the descriptors went.
    Claimed(Result<(), InheritedFdsError>),
    /// How the new session came about.
    SessionStarted(Result<(), SysError>),
    /// How leaving the working directory went.
    DirectoryLeft(Result<(), IoError>),
    /// How sending the build id went.
    HandshakeSent(Result<(), ChannelSendError>),
    /// The payload's bytes, or why there are none.
    PayloadReceived(Result<Vec<u8>, ChannelRecvError>),
    /// How decoding the payload went.
    PayloadDecoded(Result<(), CodecError>),
    /// How sending the acknowledgement went.
    AckSent(Result<(), ChannelSendError>),
}

/// What the daemon child's startup does next.
#[derive(Debug)]
pub enum ChildStep {
    /// Claim the descriptors.
    Claim,
    /// Start a new session.
    StartSession,
    /// Change the working directory to the root.
    LeaveDirectory,
    /// Send the build id, after reporting `warning` where there is one.
    SendHandshake { warning: Option<String> },
    /// Receive the payload.
    ReceivePayload,
    /// Decode these bytes as the payload.
    DecodePayload { bytes: Vec<u8> },
    /// Send the acknowledgement.
    SendAck,
    /// Remove the marker from the environment, and hand payload and channel to
    /// the application.
    RunDaemon,
    /// Report `message` and exit with `code`.
    Exit { code: i32, message: String },
}

/// What the daemon child's startup does next, as contracts see it.
pub enum ChildNext {
    Claim,
    StartSession,
    LeaveDirectory,
    SendHandshake(Option<Seq<char>>),
    ReceivePayload,
    DecodePayload(Seq<u8>),
    SendAck,
    RunDaemon,
    Exit(int, Seq<char>),
}

impl View for ChildStep {
    type V = ChildNext;

    open spec fn view(&self) -> ChildNext {
        match self {
            ChildStep::Claim => ChildNext::Claim,
            ChildStep::StartSession => ChildNext::StartSession,
            ChildStep::LeaveDirectory => ChildNext::LeaveDirectory,
            ChildStep::SendHandshake { warning } => ChildNext::SendHandshake(
                match warning {
                    Some(text) => Some(text@),
                    None => None,
                },
            ),
            ChildStep::ReceivePayload => ChildNext::ReceivePayload,
            ChildStep::DecodePayload { bytes } => ChildNext::DecodePayload(bytes@),
            ChildStep::SendAck => ChildNext::SendAck,
            ChildStep::RunDaemon => ChildNext::RunDaemon,
            ChildStep::Exit { code, message } => ChildNext::Exit(*code as int, message@),
        }
    }
}

/// What the daemon child's startup does after `event`.
pub open spec fn child_next(event: ChildEvent) -> ChildNext {
    match event {
        ChildEvent::Started => ChildNext::Claim,
        ChildEvent::Claimed(Ok(_)) => ChildNext::StartSession,
        ChildEvent::Claimed(Err(err)) => ChildNext::Exit(2, "daemon child: "@ + err.text()),
        ChildEvent::SessionStarted(Ok(_)) => ChildNext::LeaveDirectory,
        ChildEvent::SessionStarted(Err(err)) => ChildNext::Exit(
            1,
            "daemon child: setsid() failed: "@ + err.error.message@,
        ),
        ChildEvent::DirectoryLeft(Ok(_)) => ChildNext::SendHandshake(None),
        ChildEvent::DirectoryLeft(Err(err)) => ChildNext::SendHandshake(
            Some(
                "daemon child: warning: chdir(\"/\") failed, keeping inherited working directory: "@
                    + err.message@,
            ),
        ),
        ChildEvent::HandshakeSent(Ok(_)) => ChildNext::ReceivePayload,
        ChildEvent::HandshakeSent(Err(err)) => ChildNext::Exit(
            127,
            "daemon child: failed to send build-id handshake to parent: "@ + err.text(),
        ),
        ChildEvent::PayloadReceived(Ok(bytes)) => ChildNext::DecodePayload(bytes@),
        ChildEvent::PayloadReceived(Err(err)) => ChildNext::Exit(
            127,
            "daemon child: failed to receive bootstrap payload from parent: "@ + err.text(),
        ),
        ChildEvent::PayloadDecoded(Ok(_)) => ChildNext::SendAck,
        ChildEvent::PayloadDecoded(Err(err)) => ChildNext::Exit(
            127,
            "daemon child: failed to decode bootstrap payload: "@ + err.message@,
        ),
        ChildEvent::AckSent(Ok(_)) => ChildNext::RunDaemon,
        ChildEvent::AckSent(Err(err)) => ChildNext::Exit(
            127,
            "daemon child: failed to send bootstrap ack to parent: "@ + err.text(),
        ),
    }
}

fn exit_with(code: i32, head: &str, tail: &str) -> (step: ChildStep)
    ensures
        step@ == ChildNext::Exit(code as int, head@ + tail@),
{
    ChildStep::Exit { code, message: joined(head, tail) }
}

/// The daemon child's startup: claim the descriptors, leave the session and the
/// working directory, send the build id, receive and decode the payload,
/// acknowledge it, and hand over to the application.
pub fn run_as_daemon_child(event: ChildEvent) -> (step: ChildStep)
    ensures
        step@ == child_next(event),
{
    match event {
        ChildEvent::Started => ChildStep::Claim,
        ChildEvent::Claimed(Ok(())) => ChildStep::StartSession,
        ChildEvent::Claimed(Err(err)) => exit_with(2, "daemon child: ", err.message().as_str()),
        ChildEvent::SessionStarted(Ok(())) => ChildStep::LeaveDirectory,
        ChildEvent::SessionStarted(Err(err)) => exit_with(
            1,
            "daemon child: setsid() failed: ",
            err.error.message.as_str(),
        ),
        ChildEvent::DirectoryLeft(Ok(())) => ChildStep::SendHandshake { warning: None },
        ChildEvent::DirectoryLeft(Err(err)) => ChildStep::SendHandshake {
            warning: Some(
                joined(
                    "daemon child: warning: chdir(\"/\") failed, keeping inherited working directory: ",
                    err.message.as_str(),
                ),
            ),
        },
        ChildEvent::HandshakeSent(Ok(())) => ChildStep::ReceivePayload,
        ChildEvent::HandshakeSent(Err(err)) => exit_with(
            127,
            "daemon child: failed to send build-id handshake to parent: ",
            err.message().as_str(),
        ),
        ChildEvent::PayloadReceived(Ok(bytes)) => ChildStep::DecodePayload { bytes },
        ChildEvent::PayloadReceived(Err(err)) => exit_with(
            127,
            "daemon child: failed to receive bootstrap payload from parent: ",
            err.message().as_str(),
        ),
        ChildEvent::PayloadDecoded(Ok(())) => ChildStep::SendAck,
        ChildEvent::PayloadDecoded(Err(err)) => exit_with(
            127,
            "daemon child: failed to decode bootstrap payload: ",
            err.message.as_str(),
        ),
        ChildEvent::AckSent(Ok(())) => ChildStep::RunDaemon,
        ChildEvent::AckSent(Err(err)) => exit_with(
            127,
            "daemon child: failed to send bootstrap ack to parent: ",
            err.message().as_str(),
        ),
    }
}

/// Whether `event` answers what the daemon child's startup was told to do.
pub open spec fn answers_child(step: ChildNext, event: ChildEvent) -> bool {
    match step {
        ChildNext::Claim => event is Claimed,
        ChildNext::StartSession => event is SessionStarted,
        ChildNext::LeaveDirectory => event is DirectoryLeft,
        ChildNext::SendHandshake(_) => event is HandshakeSent,
        ChildNext::ReceivePayload => event is PayloadReceived,
        ChildNext::DecodePayload(_) => event is PayloadDecoded,
        ChildNext::SendAck => event is AckSent,
        ChildNext::RunDaemon => false,
        ChildNext::Exit(_, _) => false,
    }
}

/// Whether `events` is a run of the daemon child's startup.
pub open spec fn child_trace(events: Seq<ChildEvent>) -> bool {
    &&& events.len() > 0
    &&& events[0] is Started
    &&& forall|i: int|
        0 < i < events.len() ==> answers_child(child_next(events[i - 1]), #[trigger] events[i])
}

/// The application runs only in a daemon that has claimed its descriptors, has
/// its own session, has sent its build id, and has received, decoded and
/// acknowledged its payload, in this order.
pub proof fn law_child_runs_only_after_every_step(events: Seq<ChildEvent>)
    requires
        child_trace(events),
        child_next(events.last()) == ChildNext::RunDaemon,
    ensures
        events.len() == 8,
        events[1] matches ChildEvent::Claimed(Ok(_)),
        events[2] matches ChildEvent::SessionStarted(Ok(_)),
        events[3] is DirectoryLeft,
        events[4] matches ChildEvent::HandshakeSent(Ok(_)),
        events[5] matches ChildEvent::PayloadReceived(Ok(_)),
        events[6] matches ChildEvent::PayloadDecoded(Ok(_)),
        events[7] matches ChildEvent::AckSent(Ok(_)),
{
    if events.len() > 1 {
        assert(answers_child(child_next(events[0]), events[1]));
    }
    if events.len() > 2 {
        assert(answers_child(child_next(events[1]), events[2]));
    }
    if events.len() > 3 {
        assert(answers_child(child_next(events[2]), events[3]));
    }
    if events.len() > 4 {
        assert(answers_child(child_next(events[3]), events[4]));
    }
    if events.len() > 5 {
        assert(answers_child(child_next(events[4]), events[5]));
    }
    if events.len() > 6 {
        assert(answers_child(child_next(events[5]), events[6]));
    }
    if events.len() > 7 {
        assert(answers_child(child_next(events[6]), events[7]));
    }
    if events.len() > 8 {
        assert(answers_child(child_next(events[7]), events[8]));
    }
}

/// The daemon child hands over to the application wherever nothing goes wrong: a
/// run in which every step succeeds, the working directory aside, acknowledges
/// its payload and gets to the application, whatever the payload is.
pub proof fn law_child_gets_through(events: Seq<ChildEvent>)
    requires
        events.len() == 8,
        events[0] is Started,
        events[1] matches ChildEvent::Claimed(Ok(_)),
        events[2] matches ChildEvent::SessionStarted(Ok(_)),
        events[3] is DirectoryLeft,
        events[4] matches ChildEvent::HandshakeSent(Ok(_)),
        events[5] matches ChildEvent::PayloadReceived(Ok(_)),
        events[6] matches ChildEvent::PayloadDecoded(Ok(_)),
        events[7] matches ChildEvent::AckSent(Ok(_)),
    ensures
        child_trace(events),
        child_next(events[6]) == ChildNext::SendAck,
        child_next(events.last()) == ChildNext::RunDaemon,
{
    assert forall|i: int| 0 < i < events.len() implies answers_child(
        child_next(events[i - 1]),
        #[trigger] events[i],
    ) by {
        assert(i == 1 || i == 2 || i == 3 || i == 4 || i == 5 || i == 6 || i == 7);
    }
}

/// The daemon child gives up where its last step failed and nowhere else, except
/// that a working directory that could not be left is only warned of. It reports
/// what went wrong, and what it decodes is what it received.
pub proof fn law_child_gives_up_only_on_a_failure(event: ChildEvent, step: ChildStep)
    requires
        call_ensures(run_as_daemon_child, (event,), step),
    ensures
        step is Exit <==> {
            ||| event matches ChildEvent::Claimed(Err(_))
            ||| event matches ChildEvent::SessionStarted(Err(_))
            ||| event matches ChildEvent::HandshakeSent(Err(_))
            ||| event matches ChildEvent::PayloadReceived(Err(_))
            ||| event matches ChildEvent::PayloadDecoded(Err(_))
            ||| event matches ChildEvent::AckSent(Err(_))
        },
        step is RunDaemon <==> (event matches ChildEvent::AckSent(Ok(_))),
        step is SendAck <==> (event matches ChildEvent::PayloadDecoded(Ok(_))),
        event is Started ==> step is Claim,
        event matches ChildEvent::Claimed(Ok(_)) ==> step is StartSession,
        event matches ChildEvent::SessionStarted(Ok(_)) ==> step is LeaveDirectory,
        event matches ChildEvent::DirectoryLeft(left) ==> (step matches ChildStep::SendHandshake {
            warning,
        } && (warning is Some <==> left is Err)),
        event matches ChildEvent::DirectoryLeft(Err(err)) ==> (step matches ChildStep::SendHandshake {
            warning: Some(text),
        } && ends_with(text@, err.message@)),
        event matches ChildEvent::HandshakeSent(Ok(_)) ==> step is ReceivePayload,
        event matches ChildEvent::PayloadReceived(Ok(payload)) ==> (step matches
            ChildStep::DecodePayload { bytes } && bytes@ == payload@),
        event matches ChildEvent::Claimed(Err(err)) ==> (step matches ChildStep::Exit {
            code,
            message,
        } && code == 2 && ends_with(message@, err.text())),
        event matches ChildEvent::SessionStarted(Err(err)) ==> (step matches ChildStep::Exit {
            code,
            message,
        } && code == 1 && ends_with(message@, err.error.message@)),
        event matches ChildEvent::HandshakeSent(Err(err)) ==> (step matches ChildStep::Exit {
            code,
            message,
        } && code == 127 && ends_with(message@, err.text())),
        event matches ChildEvent::PayloadReceived(Err(err)) ==> (step matches ChildStep::Exit {
            code,
            message,
        } && code == 127 && ends_with(message@, err.text())),
        event matches ChildEvent::PayloadDecoded(Err(err)) ==> (step matches ChildStep::Exit {
            code,
            message,
        } && code == 127 && ends_with(message@, err.message@)),
        event matches ChildEvent::AckSent(Err(err)) ==> (step matches ChildStep::Exit {
            code,
            message,
        } && code == 127 && ends_with(message@, err.text())),
{
    match event {
        ChildEvent::Claimed(Err(err)) => {
            lemma_ends_of_a_sum("daemon child: "@, err.text());
        },
        ChildEvent::SessionStarted(Err(err)) => {
            lemma_ends_of_a_sum("daemon child: setsid() failed: "@, err.error.message@);
        },
        ChildEvent::DirectoryLeft(Err(err)) => {
            lemma_ends_of_a_sum(
                "daemon child: warning: chdir(\"/\") failed, keeping inherited working directory: "@,
                err.message@,
            );
        },
        ChildEvent::HandshakeSent(Err(err)) => {
            lemma_ends_of_a_sum(
                "daemon child: failed to send build-id handshake to parent: "@,
                err.text(),
            );
        },
        ChildEvent::PayloadReceived(Err(err)) => {
            lemma_ends_of_a_sum(
                "daemon child: failed to receive bootstrap payload from parent: "@,
                err.text(),
            );
        },
        ChildEvent::PayloadDecoded(Err(err)) => {
            lemma_ends_of_a_sum("daemon child: failed to decode bootstrap payload: "@, err.message@);
        },
        ChildEvent::AckSent(Err(err)) => {
            lemma_ends_of_a_sum(
                "daemon child: failed to send bootstrap ack to parent: "@,
                err.text(),
            );
        },
        _ => {},
    }
}

/// Two pipes can be claimed: a run on two descriptors that are open pipes and
/// whose flags can be read and set succeeds, whatever else their modes and flags
/// say.
pub proof fn law_two_pipes_can_be_claimed(
    events: Seq<PipeClaimEvent>,
    request_mode: u32,
    response_mode: u32,
    request_flags: i32,
    response_flags: i32,
)
    requires
        request_mode & S_IFMT == S_IFIFO,
        response_mode & S_IFMT == S_IFIFO,
        events == seq![
            PipeClaimEvent::Stat { fd: 3, st_mode: Ok(request_mode) },
            PipeClaimEvent::Stat { fd: 4, st_mode: Ok(response_mode) },
            PipeClaimEvent::GetFlags { fd: 3, flags: Ok(request_flags) },
            PipeClaimEvent::SetFlags { fd: 3, set: Ok(()) },
            PipeClaimEvent::GetFlags { fd: 4, flags: Ok(response_flags) },
            PipeClaimEvent::SetFlags { fd: 4, set: Ok(()) },
        ],
    ensures
        pipe_claim_trace(events),
        pipe_claim_next(events.last()) == PipeClaimStep::Done(Ok::<(), InheritedFdsError>(())),
{
    assert forall|i: int| 0 < i < events.len() implies answers_pipe_claim(
        pipe_claim_next(events[i - 1]),
        #[trigger] events[i],
    ) by {
        assert(i == 1 || i == 2 || i == 3 || i == 4 || i == 5);
    }
}

/// Whether `label` is what the descriptor is for: the lower one carries requests
/// to the daemon, and the other its responses.
pub open spec fn names_pipe(label: &'static str, fd: i32) -> bool {
    &&& fd == 3 ==> label@ == "request-recv"@
    &&& fd == 4 ==> label@ == "response-send"@
}

/// A claim of two pipes fails where its last step failed or showed something that
/// is no pipe, and nowhere else; the error names the descriptor and carries the
/// failure.
pub proof fn law_pipe_claim_fails_only_on_a_failure(event: PipeClaimEvent, step: PipeClaimStep)
    requires
        call_ensures(pipe_claim_after, (event,), step),
    ensures
        match event {
            PipeClaimEvent::Stat { fd, st_mode: Err(source) } => step matches PipeClaimStep::Done(
                Err(InheritedFdsError::NotOpen { fd: f, label, source: s }),
            ) && f == fd && s == source && names_pipe(label, fd),
            PipeClaimEvent::Stat { fd, st_mode: Ok(mode) } => if mode & S_IFMT == S_IFIFO {
                !(step is Done)
            } else {
                step matches PipeClaimStep::Done(
                    Err(InheritedFdsError::NotAPipe { fd: f, label, st_mode }),
                ) && f == fd && st_mode == mode && names_pipe(label, fd)
            },
            PipeClaimEvent::GetFlags { fd, flags: Ok(flags) } => step matches
                PipeClaimStep::SetFlags { fd: f, flags: set } && f == fd && set & FD_CLOEXEC
                == FD_CLOEXEC && (flags & FD_CLOEXEC == FD_CLOEXEC ==> set == flags),
            PipeClaimEvent::GetFlags { fd, flags: Err(source) } => step matches PipeClaimStep::Done(
                Err(InheritedFdsError::SetCloexec { fd: f, label, operation, source: s }),
            ) && f == fd && s == source && names_pipe(label, fd) && operation@ == "F_GETFD"@,
            PipeClaimEvent::SetFlags { fd, set: Ok(_) } => !(step matches PipeClaimStep::Done(Err(_))),
            PipeClaimEvent::SetFlags { fd, set: Err(source) } => step matches PipeClaimStep::Done(
                Err(InheritedFdsError::SetCloexec { fd: f, label, operation, source: s }),
            ) && f == fd && s == source && names_pipe(label, fd) && operation@ == "F_SETFD"@,
        },
{
    if let PipeClaimEvent::GetFlags { fd, flags: Ok(flags) } = event {
        assert((flags | 1i32) & 1i32 == 1i32) by (bit_vector);
        assert(flags & 1i32 == 1i32 ==> flags | 1i32 == flags) by (bit_vector);
    }
}

/// The parent's bootstrap succeeds where the build ids match, the payload goes
/// out and an empty acknowledgement comes back, and nowhere else; it fails with
/// the error of the step that failed, and waits for no step longer than ten
/// seconds.
pub proof fn law_bootstrap_succeeds_with_the_empty_ack(event: BootstrapEvent, step: BootstrapStep)
    requires
        call_ensures(handshake_and_ship_bootstrap, (event,), step),
    ensures
        step == BootstrapStep::Done(Ok::<(), BootstrapError>(())) <==> (event matches
            BootstrapEvent::AckReceived(Ok(bytes)) && bytes@.len() == 0),
        event matches BootstrapEvent::Handshake(Ok(_)) ==> (step matches BootstrapStep::SendPayload {
            timeout_secs,
        } && timeout_secs == 10),
        event matches BootstrapEvent::PayloadSent(Ok(_)) ==> (step matches BootstrapStep::ReceiveAck {
            timeout_secs,
        } && timeout_secs == 10),
        event matches BootstrapEvent::Handshake(Err(err)) ==> step == BootstrapStep::Done(
            Err(BootstrapError::Handshake(err)),
        ),
        event matches BootstrapEvent::PayloadSent(Err(err)) ==> step == BootstrapStep::Done(
            Err(BootstrapError::SendPayload(err)),
        ),
        event matches BootstrapEvent::AckReceived(Err(err)) ==> step == BootstrapStep::Done(
            Err(BootstrapError::RecvAck(err)),
        ),
        event matches BootstrapEvent::AckReceived(Ok(bytes)) ==> bytes@.len() > 0 ==> (step matches
            BootstrapStep::Done(Err(BootstrapError::MalformedAck { len })) && len == bytes@.len()),
{
    if let BootstrapEvent::AckReceived(Ok(bytes)) = event {
        assert(bytes.len() == bytes@.len());
    }
}

/// What a daemon sends as its acknowledgement is what its parent accepts as one,
/// and no other bytes are.
pub proof fn law_acknowledgement_is_accepted(
    sender: &Sender,
    sent: SendStep,
    received: Vec<u8>,
    verdict: Result<(), BootstrapAckError>,
)
    requires
        !sender.poisoned(),
        call_ensures(send_raw_bootstrap_ack, (sender,), sent),
        call_ensures(
            recv_raw_bootstrap_ack,
            (Ok::<Vec<u8>, ChannelRecvError>(received),),
            verdict,
        ),
    ensures
        sent@ matches SendNext::Write(head, Some(payload)) && payload.len() == 0,
        verdict is Ok <==> sent@ == SendNext::Write(prefix_bytes(0), Some(received@)),
        verdict is Err ==> (verdict matches Err(BootstrapAckError::NonEmptyAck { len }) && len
            == received@.len()),
{
    assert(received.len() == received@.len());
    if received@.len() == 0 {
        assert(received@ =~= Seq::<u8>::empty());
    }
}

/// A daemon that took its payload is left alone. One that did not is killed, and
/// then reaped, so that it neither runs on nor stays behind.
pub proof fn law_failed_bootstrap_leaves_nothing_behind<C>(
    client: C,
    bootstrapped: Result<(), BootstrapError>,
    completion: BootstrapCompletion<C>,
)
    requires
        call_ensures(complete_bootstrap::<C>, (client, bootstrapped), completion),
    ensures
        completion.result is Ok <==> bootstrapped is Ok,
        bootstrapped is Ok ==> completion.actions@.len() == 0 && completion.result->Ok_0 == client,
        bootstrapped matches Err(err) ==> completion.result->Err_0 == err,
        bootstrapped is Err ==> {
            &&& completion.actions@.len() > 0
            &&& completion.actions@.last() == CleanupAction::Reap
            &&& completion.actions@.drop_last().contains(CleanupAction::KillChild)
            &&& !completion.actions@.drop_last().contains(CleanupAction::Reap)
        },
{
    if bootstrapped is Err {
        assert(completion.actions@.drop_last()[0] == CleanupAction::KillChild);
    }
}

/// The child that a spawn in a single image starts takes itself for a daemon
/// child, and a process without its marker does not.
pub proof fn law_marker_makes_the_daemon_child(
    exe: Vec<u8>,
    current_exe: Option<Vec<u8>>,
    request: SpawnRequest,
    marker: &[u8],
    decision: DispatchDecision,
    unmarked: DispatchDecision,
)
    requires
        call_ensures(bootstrap_spawn_request, (exe, current_exe), request),
        call_ensures(dispatch_decision, (Some(marker),), decision),
        call_ensures(dispatch_decision, (None::<&[u8]>,), unmarked),
    ensures
        request.exe == exe,
        request.args@.len() == 0,
        request.prequeue is None,
        current_exe is Some ==> opt_view(request.argv0) == opt_view(current_exe),
        current_exe is None ==> opt_view(request.argv0) == Some(exe@),
        request.extra_env@.len() == 1,
        request.extra_env@[0].0@ == vstd::utf8::encode_utf8("DAEMONIZABLE_DAEMON_CHILD"@),
        request.extra_env@[0].1@ == seq![0x31u8],
        marker@ == request.extra_env@[0].1@ <==> decision == DispatchDecision::DaemonChild,
        unmarked == DispatchDecision::Foreground,
{
}

/// The descriptors can be claimed once: of two claims one after the other the
/// second is refused without touching them, and the first in a process begins
/// with the descriptor for requests.
pub proof fn law_pipes_are_claimed_once_only(
    guard: &mut ClaimGuard,
    first: PipeClaimStep,
    later: &mut ClaimGuard,
    second: PipeClaimStep,
)
    requires
        call_ensures(rpc_server_from_inherited_fds, (guard,), first),
        call_ensures(rpc_server_from_inherited_fds, (later,), second),
        *old(later) == *final(guard),
    ensures
        !old(guard).claimed() ==> first == (PipeClaimStep::Stat { fd: 3 }),
        second matches PipeClaimStep::Done(
            Err(InheritedFdsError::AlreadyClaimed { request_recv_fd, response_send_fd }),
        ) && request_recv_fd == 3 && response_send_fd == 4,
{
}

/// The sentence about a failed claim of the pipes names the descriptor and says
/// what failed.
pub proof fn law_pipe_claim_error_says_what_failed(err: &InheritedFdsError, text: String)
    requires
        call_ensures(InheritedFdsError::message, (err,), text),
    ensures
        err matches InheritedFdsError::NotOpen { fd, label, source } ==> begins_with(
            text@,
            "fd "@ + signed_decimal(*fd as int) + " ("@ + label@,
        ) && ends_with(text@, source.message@ + ")"@),
        err matches InheritedFdsError::NotAPipe { fd, label, st_mode } ==> begins_with(
            text@,
            "fd "@ + signed_decimal(*fd as int) + " ("@ + label@,
        ) && ends_with(text@, numeral(*st_mode as nat, 8) + ")."@),
        err matches InheritedFdsError::SetCloexec { fd, label, operation, source } ==> begins_with(
            text@,
            "fcntl("@ + operation@,
        ) && ends_with(
            text@,
            signed_decimal(*fd as int) + (" ("@ + (label@ + ("): "@ + source.message@))),
        ),
        err matches InheritedFdsError::AlreadyClaimed { request_recv_fd, response_send_fd }
            ==> begins_with(
            text@,
            "the inherited daemon fds ("@ + signed_decimal(*request_recv_fd as int) + " and "@
                + signed_decimal(*response_send_fd as int),
        ),
{
    match err {
        InheritedFdsError::NotOpen { fd, label, source } => {
            let head = "fd "@ + signed_decimal(*fd as int) + " ("@ + label@;
            let middle = ") is not open. ("@;
            assert(text@ =~= head + (middle + source.message@ + ")"@));
            lemma_ends_of_a_sum(head, middle + source.message@ + ")"@);
            assert(text@ =~= (head + middle) + (source.message@ + ")"@));
            lemma_ends_of_a_sum(head + middle, source.message@ + ")"@);
        },
        InheritedFdsError::NotAPipe { fd, label, st_mode } => {
            let head = "fd "@ + signed_decimal(*fd as int) + " ("@ + label@;
            let middle = ") is not a pipe (st_mode=0o"@;
            let tail = numeral(*st_mode as nat, 8) + ")."@;
            assert(text@ =~= head + (middle + tail));
            lemma_ends_of_a_sum(head, middle + tail);
            assert(text@ =~= (head + middle) + tail);
            lemma_ends_of_a_sum(head + middle, tail);
        },
        InheritedFdsError::SetCloexec { fd, label, operation, source } => {
            let head = "fcntl("@ + operation@;
            let middle = ") failed restoring FD_CLOEXEC on fd "@;
            let tail = signed_decimal(*fd as int) + (" ("@ + (label@ + ("): "@ + source.message@)));
            assert(text@ =~= head + (middle + tail));
            lemma_ends_of_a_sum(head, middle + tail);
            assert(text@ =~= (head + middle) + tail);
            lemma_ends_of_a_sum(head + middle, tail);
        },
        InheritedFdsError::AlreadyClaimed { request_recv_fd, response_send_fd } => {
            let head = "the inherited daemon fds ("@ + signed_decimal(*request_recv_fd as int)
                + " and "@ + signed_decimal(*response_send_fd as int);
            lemma_ends_of_a_sum(head, ") have already been claimed"@);
        },
    }
}

/// What is reported of a failed step of the daemon child is worded the same for
/// every error: what stands before the error's own text does not depend on it.
pub proof fn law_wording_of_the_child_is_fixed(
    claim: InheritedFdsError,
    other_claim: InheritedFdsError,
    system: SysError,
    other_system: SysError,
    io: IoError,
    other_io: IoError,
    send: ChannelSendError,
    other_send: ChannelSendError,
    recv: ChannelRecvError,
    other_recv: ChannelRecvError,
    codec: CodecError,
    other_codec: CodecError,
)
    ensures
        lead(child_next(ChildEvent::Claimed(Err(claim)))->Exit_1, claim.text()) == lead(
            child_next(ChildEvent::Claimed(Err(other_claim)))->Exit_1,
            other_claim.text(),
        ),
        lead(
            child_next(ChildEvent::SessionStarted(Err(system)))->Exit_1,
            system.error.message@,
        ) == lead(
            child_next(ChildEvent::SessionStarted(Err(other_system)))->Exit_1,
            other_system.error.message@,
        ),
        lead(
            child_next(ChildEvent::DirectoryLeft(Err(io)))->SendHandshake_0->Some_0,
            io.message@,
        ) == lead(
            child_next(ChildEvent::DirectoryLeft(Err(other_io)))->SendHandshake_0->Some_0,
            other_io.message@,
        ),
        lead(child_next(ChildEvent::HandshakeSent(Err(send)))->Exit_1, send.text()) == lead(
            child_next(ChildEvent::HandshakeSent(Err(other_send)))->Exit_1,
            other_send.text(),
        ),
        lead(child_next(ChildEvent::AckSent(Err(send)))->Exit_1, send.text()) == lead(
            child_next(ChildEvent::AckSent(Err(other_send)))->Exit_1,
            other_send.text(),
        ),
        lead(child_next(ChildEvent::PayloadReceived(Err(recv)))->Exit_1, recv.text()) == lead(
            child_next(ChildEvent::PayloadReceived(Err(other_recv)))->Exit_1,
            other_recv.text(),
        ),
        lead(child_next(ChildEvent::PayloadDecoded(Err(codec)))->Exit_1, codec.message@) == lead(
            child_next(ChildEvent::PayloadDecoded(Err(other_codec)))->Exit_1,
            other_codec.message@,
        ),
{
    lemma_ends_of_a_sum("daemon child: "@, claim.text());
    lemma_ends_of_a_sum("daemon child: "@, other_claim.text());
    lemma_ends_of_a_sum("daemon child: setsid() failed: "@, system.error.message@);
    lemma_ends_of_a_sum("daemon child: setsid() failed: "@, other_system.error.message@);
    let chdir =
        "daemon child: warning: chdir(\"/\") failed, keeping inherited working directory: "@;
    lemma_ends_of_a_sum(chdir, io.message@);
    lemma_ends_of_a_sum(chdir, other_io.message@);
    let handshake = "daemon child: failed to send build-id handshake to parent: "@;
    lemma_ends_of_a_sum(handshake, send.text());
    lemma_ends_of_a_sum(handshake, other_send.text());
    let ack = "daemon child: failed to send bootstrap ack to parent: "@;
    lemma_ends_of_a_sum(ack, send.text());
    lemma_ends_of_a_sum(ack, other_send.text());
    let payload = "daemon child: failed to receive bootstrap payload from parent: "@;
    lemma_ends_of_a_sum(payload, recv.text());
    lemma_ends_of_a_sum(payload, other_recv.text());
    let decode = "daemon child: failed to decode bootstrap payload: "@;
    lemma_ends_of_a_sum(decode, codec.message@);
    lemma_ends_of_a_sum(decode, other_codec.message@);
}

/// A spawn in a single image knows what to do after every event, in the parent
/// and in the child.
pub proof fn law_bootstrap_answers_every_event(
    child: ChildEvent,
    parent: BootstrapEvent,
    claim: PipeClaimEvent,
    guard: &mut ClaimGuard,
    marker: Option<&[u8]>,
    exe: Vec<u8>,
    current_exe: Option<Vec<u8>>,
    received: Result<Vec<u8>, ChannelRecvError>,
    bootstrapped: Result<(), BootstrapError>,
)
    ensures
        call_requires(run_as_daemon_child, (child,)),
        call_requires(handshake_and_ship_bootstrap, (parent,)),
        call_requires(pipe_claim_after, (claim,)),
        call_requires(rpc_server_from_inherited_fds, (guard,)),
        call_requires(dispatch_decision, (marker,)),
        call_requires(bootstrap_spawn_request, (exe, current_exe)),
        call_requires(recv_raw_bootstrap_ack, (received,)),
        call_requires(complete_bootstrap::<()>, ((), bootstrapped)),
{
}

} // verus!
