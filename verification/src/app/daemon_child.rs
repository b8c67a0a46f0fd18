//! The two-stage startup of a spawned daemon, as decisions: each function says
//! what to do next, given how the last step went. Every failure is reported on
//! the standard error that is still attached.

use vstd::prelude::*;

use crate::error::{
    joined, ChannelSendError, InheritedFdError, IoError, SpawnDaemonError, SysError,
};
use crate::spawn::peercred::PeerCredError;
use crate::text::{begins_with, ends_with, lead, lemma_ends_of_a_sum};

verus! {

/// How the last step of the first stage went.
#[derive(Debug)]
pub enum Stage1Event {
    /// The stage begins: its own token has been consumed.
    Started,
    /// Whether the second stage's token is queued.
    Token2Queued(bool),
    /// How the new session came about.
    SessionStarted(Result<(), SysError>),
    /// The path to re-exec.
    ExeResolved(Result<Vec<u8>, SpawnDaemonError>),
    /// How starting the second stage went; `exe` is its path as shown to a
    /// reader.
    Stage2Spawned { exe: String, spawned: Result<(), IoError> },
}

/// What the first stage does next.
#[derive(Debug)]
pub enum Stage1Step {
    /// Look whether the second stage's token is queued, without consuming it.
    CheckToken2,
    /// Start a new session.
    StartSession,
    /// Resolve the path to re-exec.
    ResolveExe,
    /// Start this path, on the inherited channel and with no argument but the
    /// first.
    SpawnStage2 { exe: Vec<u8> },
    /// Report `message` and exit with `code`.
    Exit { code: i32, message: String },
    /// Exit with code 0 at once, without running anything on the way out.
    ExitImmediately,
}

/// What the first stage does next, as contracts see it.
pub enum Stage1Next {
    CheckToken2,
    StartSession,
    ResolveExe,
    SpawnStage2(Seq<u8>),
    Exit(int, Seq<char>),
    ExitImmediately,
}

impl View for Stage1Step {
    type V = Stage1Next;

    open spec fn view(&self) -> Stage1Next {
        match self {
            Stage1Step::CheckToken2 => Stage1Next::CheckToken2,
            Stage1Step::StartSession => Stage1Next::StartSession,
            Stage1Step::ResolveExe => Stage1Next::ResolveExe,
            Stage1Step::SpawnStage2 { exe } => Stage1Next::SpawnStage2(exe@),
            Stage1Step::Exit { code, message } => Stage1Next::Exit(*code as int, message@),
            Stage1Step::ExitImmediately => Stage1Next::ExitImmediately,
        }
    }
}

/// What the first stage does after `event`.
pub open spec fn stage1_next(event: Stage1Event) -> Stage1Next {
    match event {
        Stage1Event::Started => Stage1Next::CheckToken2,
        Stage1Event::Token2Queued(queued) => if queued {
            Stage1Next::StartSession
        } else {
            Stage1Next::Exit(
                2,
                "daemon stage 1: the channel is missing stage 2's token. This entry point is internal to this binary; do not invoke it directly."@,
            )
        },
        Stage1Event::SessionStarted(Ok(_)) => Stage1Next::ResolveExe,
        Stage1Event::SessionStarted(Err(err)) => Stage1Next::Exit(
            1,
            "daemon stage 1: setsid() failed: "@ + err.error.message@,
        ),
        Stage1Event::ExeResolved(Ok(exe)) => Stage1Next::SpawnStage2(exe@),
        Stage1Event::ExeResolved(Err(err)) => Stage1Next::Exit(
            1,
            "daemon stage 1: cannot resolve the executable to re-exec for stage 2: "@ + err.text(),
        ),
        Stage1Event::Stage2Spawned { exe, spawned } => match spawned {
            Ok(_) => Stage1Next::ExitImmediately,
            Err(err) => Stage1Next::Exit(
                1,
                "daemon stage 1: failed to re-exec stage 2 ("@ + exe@ + "): "@ + err.message@,
            ),
        },
    }
}

/// The first stage: verify that the second token is queued, leave the session,
/// re-exec into the second stage, and get out of the way.
pub fn run_as_daemon_stage1(event: Stage1Event) -> (step: Stage1Step)
    ensures
        step@ == stage1_next(event),
{
    match event {
        Stage1Event::Started => Stage1Step::CheckToken2,
        Stage1Event::Token2Queued(queued) => if queued {
            Stage1Step::StartSession
        } else {
            Stage1Step::Exit {
                code: 2,
                message:
                    "daemon stage 1: the channel is missing stage 2's token. This entry point is internal to this binary; do not invoke it directly.".to_string(),
            }
        },
        Stage1Event::SessionStarted(Ok(())) => Stage1Step::ResolveExe,
        Stage1Event::SessionStarted(Err(err)) => Stage1Step::Exit {
            code: 1,
            message: joined("daemon stage 1: setsid() failed: ", err.error.message.as_str()),
        },
        Stage1Event::ExeResolved(Ok(exe)) => Stage1Step::SpawnStage2 { exe },
        Stage1Event::ExeResolved(Err(err)) => Stage1Step::Exit {
            code: 1,
            message: joined(
                "daemon stage 1: cannot resolve the executable to re-exec for stage 2: ",
                err.message().as_str(),
            ),
        },
        Stage1Event::Stage2Spawned { exe, spawned } => match spawned {
            Ok(()) => Stage1Step::ExitImmediately,
            Err(err) => {
                let mut message = joined(
                    "daemon stage 1: failed to re-exec stage 2 (",
                    exe.as_str(),
                );
                message.append("): ");
                message.append(err.message.as_str());
                Stage1Step::Exit { code: 1, message }
            },
        },
    }
}

/// What the second stage sees as its first argument: the first stage's own,
/// where that is not empty; otherwise it is the path that is started.
pub fn stage2_argv0(argv0: Option<Vec<u8>>) -> (inherited: Option<Vec<u8>>)
    ensures
        inherited == match argv0 {
            Some(arg) => if arg@.len() > 0 {
                Some(arg)
            } else {
                None
            },
            None => None,
        },
{
    match argv0 {
        Some(arg) => if arg.len() > 0 {
            Some(arg)
        } else {
            None
        },
        None => None,
    }
}

/// How the last step of the second stage went.
#[derive(Debug)]
pub enum Stage2Event {
    /// The stage begins: its own token has been consumed.
    Started,
    /// The process's id, its session's id where that is known, and its process
    /// group's id.
    Topology { pid: i32, sid: Option<i32>, pgid: i32 },
    /// The verdict on the channel's peer.
    PeerVerified(Result<(), PeerCredError>),
    /// How the claim of the channel descriptor went.
    Claimed(Result<(), InheritedFdError>),
    /// How leaving the working directory went.
    DirectoryLeft(Result<(), IoError>),
    /// How sending the build id went.
    HandshakeSent(Result<(), ChannelSendError>),
}

/// What the second stage does next.
#[derive(Debug)]
pub enum Stage2Step {
    /// Read the ids of process, session and process group.
    ReadTopology,
    /// Compare the credentials of the channel's peer with ours.
    VerifyPeer,
    /// Claim the channel descriptor.
    Claim,
    /// Change the working directory to the root.
    LeaveDirectory,
    /// Send the build id, after reporting `warning` where there is one.
    SendHandshake { warning: Option<String> },
    /// Hand the channel to the application.
    RunDaemon,
    /// Report `message` and exit with `code`.
    Exit { code: i32, message: String },
}

/// What the second stage does next, as contracts see it.
pub enum Stage2Next {
    ReadTopology,
    VerifyPeer,
    Claim,
    LeaveDirectory,
    SendHandshake(Option<Seq<char>>),
    RunDaemon,
    Exit(int, Seq<char>),
}

impl View for Stage2Step {
    type V = Stage2Next;

    open spec fn view(&self) -> Stage2Next {
        match self {
            Stage2Step::ReadTopology => Stage2Next::ReadTopology,
            Stage2Step::VerifyPeer => Stage2Next::VerifyPeer,
            Stage2Step::Claim => Stage2Next::Claim,
            Stage2Step::LeaveDirectory => Stage2Next::LeaveDirectory,
            Stage2Step::SendHandshake { warning } => Stage2Next::SendHandshake(
                match warning {
                    Some(text) => Some(text@),
                    None => None,
                },
            ),
            Stage2Step::RunDaemon => Stage2Next::RunDaemon,
            Stage2Step::Exit { code, message } => Stage2Next::Exit(*code as int, message@),
        }
    }
}

/// Whether the ids are those of a spawned daemon: it is in the group and the
/// session of the first stage, and leads neither.
pub open spec fn is_daemon_topology(pid: int, sid: Option<int>, pgid: int) -> bool {
    sid == Some(pgid) && pgid != pid
}

/// What the second stage does after `event`.
pub open spec fn stage2_next(event: Stage2Event) -> Stage2Next {
    match event {
        Stage2Event::Started => Stage2Next::ReadTopology,
        Stage2Event::Topology { pid, sid, pgid } => if is_daemon_topology(
            pid as int,
            match sid {
                Some(sid) => Some(sid as int),
                None => None,
            },
            pgid as int,
        ) {
            Stage2Next::VerifyPeer
        } else {
            Stage2Next::Exit(
                1,
                "daemon stage 2: session/process-group topology is not that of a framework-spawned daemon; this entry point is internal and must be reached through the framework's daemon spawn"@,
            )
        },
        Stage2Event::PeerVerified(Ok(_)) => Stage2Next::Claim,
        Stage2Event::PeerVerified(Err(err)) => Stage2Next::Exit(1, "daemon stage 2: "@ + err.text()),
        Stage2Event::Claimed(Ok(_)) => Stage2Next::LeaveDirectory,
        Stage2Event::Claimed(Err(err)) => Stage2Next::Exit(2, "daemon stage 2: "@ + err.text()),
        Stage2Event::DirectoryLeft(Ok(_)) => Stage2Next::SendHandshake(None),
        Stage2Event::DirectoryLeft(Err(err)) => Stage2Next::SendHandshake(
            Some(
                "daemon stage 2: warning: chdir(\"/\") failed, keeping inherited working directory: "@
                    + err.message@,
            ),
        ),
        Stage2Event::HandshakeSent(Ok(_)) => Stage2Next::RunDaemon,
        Stage2Event::HandshakeSent(Err(err)) => Stage2Next::Exit(
            127,
            "daemon stage 2: failed to send build-id handshake to parent: "@ + err.text(),
        ),
    }
}

/// The second stage: check where the process came from and who is at the other
/// end, claim the channel, leave the working directory, send the build id, and
/// hand over to the application.
pub fn run_as_daemon_stage2(event: Stage2Event) -> (step: Stage2Step)
    ensures
        step@ == stage2_next(event),
{
    match event {
        Stage2Event::Started => Stage2Step::ReadTopology,
        Stage2Event::Topology { pid, sid, pgid } => {
            let is_group_leader = pgid == pid;
            let (is_session_leader, in_stage1_group) = match sid {
                Some(sid) => (sid == pid, sid == pgid),
                None => (false, false),
            };
            if is_session_leader || is_group_leader || !in_stage1_group {
                Stage2Step::Exit {
                    code: 1,
                    message:
                        "daemon stage 2: session/process-group topology is not that of a framework-spawned daemon; this entry point is internal and must be reached through the framework's daemon spawn".to_string(),
                }
            } else {
                Stage2Step::VerifyPeer
            }
        },
        Stage2Event::PeerVerified(Ok(())) => Stage2Step::Claim,
        Stage2Event::PeerVerified(Err(err)) => Stage2Step::Exit {
            code: 1,
            message: joined("daemon stage 2: ", err.message().as_str()),
        },
        Stage2Event::Claimed(Ok(())) => Stage2Step::LeaveDirectory,
        Stage2Event::Claimed(Err(err)) => Stage2Step::Exit {
            code: 2,
            message: joined("daemon stage 2: ", err.message().as_str()),
        },
        Stage2Event::DirectoryLeft(Ok(())) => Stage2Step::SendHandshake { warning: None },
        Stage2Event::DirectoryLeft(Err(err)) => Stage2Step::SendHandshake {
            warning: Some(
                joined(
                    "daemon stage 2: warning: chdir(\"/\") failed, keeping inherited working directory: ",
                    err.message.as_str(),
                ),
            ),
        },
        Stage2Event::HandshakeSent(Ok(())) => Stage2Step::RunDaemon,
        Stage2Event::HandshakeSent(Err(err)) => Stage2Step::Exit {
            code: 127,
            message: joined(
                "daemon stage 2: failed to send build-id handshake to parent: ",
                err.message().as_str(),
            ),
        },
    }
}

/// Whether `event` answers what the first stage was told to do.
pub open spec fn answers_stage1(step: Stage1Next, event: Stage1Event) -> bool {
    match step {
        Stage1Next::CheckToken2 => event is Token2Queued,
        Stage1Next::StartSession => event is SessionStarted,
        Stage1Next::ResolveExe => event is ExeResolved,
        Stage1Next::SpawnStage2(_) => event is Stage2Spawned,
        Stage1Next::Exit(_, _) => false,
        Stage1Next::ExitImmediately => false,
    }
}

/// Whether `events` is a run of the first stage from its start.
pub open spec fn stage1_trace(events: Seq<Stage1Event>) -> bool {
    &&& events.len() > 0
    &&& events[0] is Started
    &&& forall|i: int|
        0 < i < events.len() ==> answers_stage1(stage1_next(events[i - 1]), #[trigger] events[i])
}

/// The first stage gets out of the way with success only after all of it was
/// done, in this order: the second token seen, the new session started, the
/// path resolved, the second stage spawned.
pub proof fn law_stage1_succeeds_only_after_every_step(events: Seq<Stage1Event>)
    requires
        stage1_trace(events),
        stage1_next(events.last()) == Stage1Next::ExitImmediately,
    ensures
        events.len() == 5,
        events[1] == Stage1Event::Token2Queued(true),
        events[2] matches Stage1Event::SessionStarted(Ok(_)),
        events[3] matches Stage1Event::ExeResolved(Ok(_)),
        events[4] matches Stage1Event::Stage2Spawned { exe: _, spawned: Ok(_) },
{
    lemma_stage1_shape(events);
}

/// The first stage changes its session only where the second token was seen: a
/// channel that carries one token alone leaves no process behind.
pub proof fn law_no_session_without_second_token(events: Seq<Stage1Event>, i: int)
    requires
        stage1_trace(events),
        0 <= i < events.len(),
        stage1_next(events[i]) == Stage1Next::StartSession,
    ensures
        i == 1,
        events[1] == Stage1Event::Token2Queued(true),
{
    lemma_stage1_shape(events);
}

proof fn lemma_stage1_shape(events: Seq<Stage1Event>)
    requires
        stage1_trace(events),
    ensures
        events.len() <= 5,
        events.len() > 1 ==> events[1] is Token2Queued,
        events.len() > 2 ==> events[1] == Stage1Event::Token2Queued(true)
            && events[2] is SessionStarted,
        events.len() > 3 ==> (events[2] matches Stage1Event::SessionStarted(Ok(_)))
            && events[3] is ExeResolved,
        events.len() > 4 ==> (events[3] matches Stage1Event::ExeResolved(Ok(_)))
            && events[4] is Stage2Spawned,
{
    if events.len() > 1 {
        assert(answers_stage1(stage1_next(events[0]), events[1]));
    }
    if events.len() > 2 {
        assert(answers_stage1(stage1_next(events[1]), events[2]));
    }
    if events.len() > 3 {
        assert(answers_stage1(stage1_next(events[2]), events[3]));
    }
    if events.len() > 4 {
        assert(answers_stage1(stage1_next(events[3]), events[4]));
    }
    if events.len() > 5 {
        assert(answers_stage1(stage1_next(events[4]), events[5]));
    }
}

/// Whether `event` answers what the second stage was told to do.
pub open spec fn answers_stage2(step: Stage2Next, event: Stage2Event) -> bool {
    match step {
        Stage2Next::ReadTopology => event is Topology,
        Stage2Next::VerifyPeer => event is PeerVerified,
        Stage2Next::Claim => event is Claimed,
        Stage2Next::LeaveDirectory => event is DirectoryLeft,
        Stage2Next::SendHandshake(_) => event is HandshakeSent,
        Stage2Next::RunDaemon => false,
        Stage2Next::Exit(_, _) => false,
    }
}

/// Whether `events` is a run of the second stage from its start.
pub open spec fn stage2_trace(events: Seq<Stage2Event>) -> bool {
    &&& events.len() > 0
    &&& events[0] is Started
    &&& forall|i: int|
        0 < i < events.len() ==> answers_stage2(stage2_next(events[i - 1]), #[trigger] events[i])
}

/// No application code runs in a daemon before every check has passed: the
/// process has a spawned daemon's place, its channel's peer has our
/// credentials, the channel is claimed, and the build id has been sent. Only
/// the working directory may have been kept.
pub proof fn law_application_runs_only_after_every_check(events: Seq<Stage2Event>)
    requires
        stage2_trace(events),
        stage2_next(events.last()) == Stage2Next::RunDaemon,
    ensures
        events.len() == 6,
        events[1] matches Stage2Event::Topology { pid, sid, pgid } && sid == Some(pgid) && pgid
            != pid,
        events[2] matches Stage2Event::PeerVerified(Ok(_)),
        events[3] matches Stage2Event::Claimed(Ok(_)),
        events[4] is DirectoryLeft,
        events[5] matches Stage2Event::HandshakeSent(Ok(_)),
{
    if events.len() > 1 {
        assert(answers_stage2(stage2_next(events[0]), events[1]));
    }
    if events.len() > 2 {
        assert(answers_stage2(stage2_next(events[1]), events[2]));
    }
    if events.len() > 3 {
        assert(answers_stage2(stage2_next(events[2]), events[3]));
    }
    if events.len() > 4 {
        assert(answers_stage2(stage2_next(events[3]), events[4]));
    }
    if events.len() > 5 {
        assert(answers_stage2(stage2_next(events[4]), events[5]));
    }
    if events.len() > 6 {
        assert(answers_stage2(stage2_next(events[5]), events[6]));
    }
}

/// The first stage always gets to its end where nothing goes wrong: a run in
/// which the second token is queued and every step succeeds gets out of the way
/// with success.
pub proof fn law_stage1_gets_through(events: Seq<Stage1Event>)
    requires
        events.len() == 5,
        events[0] is Started,
        events[1] == Stage1Event::Token2Queued(true),
        events[2] matches Stage1Event::SessionStarted(Ok(_)),
        events[3] matches Stage1Event::ExeResolved(Ok(_)),
        events[4] matches Stage1Event::Stage2Spawned { exe: _, spawned: Ok(_) },
    ensures
        stage1_trace(events),
        stage1_next(events.last()) == Stage1Next::ExitImmediately,
{
    assert forall|i: int| 0 < i < events.len() implies answers_stage1(
        stage1_next(events[i - 1]),
        #[trigger] events[i],
    ) by {
        assert(i == 1 || i == 2 || i == 3 || i == 4);
    }
}

/// The first stage gives up where its last step failed and nowhere else. It
/// reports what went wrong, and its code tells an invocation that the framework
/// did not make from a failure of the system. What it starts is the path that
/// was resolved.
pub proof fn law_stage1_gives_up_only_on_a_failure(event: Stage1Event, step: Stage1Step)
    requires
        call_ensures(run_as_daemon_stage1, (event,), step),
    ensures
        step is Exit <==> {
            ||| event == Stage1Event::Token2Queued(false)
            ||| event matches Stage1Event::SessionStarted(Err(_))
            ||| event matches Stage1Event::ExeResolved(Err(_))
            ||| event matches Stage1Event::Stage2Spawned { exe: _, spawned: Err(_) }
        },
        step is ExitImmediately <==> (event matches Stage1Event::Stage2Spawned {
            exe: _,
            spawned: Ok(_),
        }),
        step matches Stage1Step::Exit { code, message } ==> code == (if event is Token2Queued {
            2int
        } else {
            1int
        }) && begins_with(message@, "daemon stage 1: "@),
        event matches Stage1Event::SessionStarted(Err(err)) ==> (step matches Stage1Step::Exit {
            code,
            message,
        } && ends_with(message@, err.error.message@)),
        event matches Stage1Event::ExeResolved(Err(err)) ==> (step matches Stage1Step::Exit {
            code,
            message,
        } && ends_with(message@, err.text())),
        event matches Stage1Event::Stage2Spawned { exe, spawned: Err(err) } ==> (step matches
            Stage1Step::Exit { code, message } && ends_with(message@, err.message@)),
        event matches Stage1Event::ExeResolved(Ok(exe)) ==> (step matches Stage1Step::SpawnStage2 {
            exe: started,
        } && started@ == exe@),
        event is Started ==> step is CheckToken2,
        event == Stage1Event::Token2Queued(true) ==> step is StartSession,
        event matches Stage1Event::SessionStarted(Ok(_)) ==> step is ResolveExe,
{
    reveal_strlit("daemon stage 1: ");
    match event {
        Stage1Event::Token2Queued(false) => {
            reveal_strlit(
                "daemon stage 1: the channel is missing stage 2's token. This entry point is internal to this binary; do not invoke it directly.",
            );
            assert(step->message@.subrange(0, 16) =~= "daemon stage 1: "@);
        },
        Stage1Event::SessionStarted(Err(err)) => {
            reveal_strlit("daemon stage 1: setsid() failed: ");
            lemma_ends_of_a_sum("daemon stage 1: setsid() failed: "@, err.error.message@);
            assert(step->message@.subrange(0, 16) =~= "daemon stage 1: "@);
        },
        Stage1Event::ExeResolved(Err(err)) => {
            reveal_strlit("daemon stage 1: cannot resolve the executable to re-exec for stage 2: ");
            lemma_ends_of_a_sum(
                "daemon stage 1: cannot resolve the executable to re-exec for stage 2: "@,
                err.text(),
            );
            assert(step->message@.subrange(0, 16) =~= "daemon stage 1: "@);
        },
        Stage1Event::Stage2Spawned { exe, spawned: Err(err) } => {
            reveal_strlit("daemon stage 1: failed to re-exec stage 2 (");
            lemma_ends_of_a_sum(
                "daemon stage 1: failed to re-exec stage 2 ("@ + exe@ + "): "@,
                err.message@,
            );
            assert(step->message@.subrange(0, 16) =~= "daemon stage 1: "@);
        },
        _ => {},
    }
}

/// The second stage hands over to the application wherever nothing goes wrong: a
/// run in a process of the first stage's session and group that leads neither,
/// with a peer that is ours, a channel that can be claimed and a build id that
/// goes out, whether or not the working directory could be left.
pub proof fn law_stage2_gets_through(events: Seq<Stage2Event>, pid: i32, stage1: i32)
    requires
        events.len() == 6,
        pid != stage1,
        events[0] is Started,
        events[1] == (Stage2Event::Topology { pid, sid: Some(stage1), pgid: stage1 }),
        events[2] matches Stage2Event::PeerVerified(Ok(_)),
        events[3] matches Stage2Event::Claimed(Ok(_)),
        events[4] is DirectoryLeft,
        events[5] matches Stage2Event::HandshakeSent(Ok(_)),
    ensures
        stage2_trace(events),
        stage2_next(events.last()) == Stage2Next::RunDaemon,
{
    assert forall|i: int| 0 < i < events.len() implies answers_stage2(
        stage2_next(events[i - 1]),
        #[trigger] events[i],
    ) by {
        assert(i == 1 || i == 2 || i == 3 || i == 4 || i == 5);
    }
}

/// The provenance check is exact: a process goes on if and only if its session
/// and its group have the same number and that number is not its own. Which
/// numbers they are plays no part in it.
pub proof fn law_provenance_check_is_exact(
    pid: i32,
    sid: Option<i32>,
    pgid: i32,
    step: Stage2Step,
)
    requires
        call_ensures(run_as_daemon_stage2, (Stage2Event::Topology { pid, sid, pgid },), step),
    ensures
        step is VerifyPeer <==> (sid matches Some(session) && session == pgid && session != pid),
        !(step is VerifyPeer) ==> (step matches Stage2Step::Exit { code, message } && code == 1),
{
}

/// The second stage gives up where its last step failed and nowhere else, except
/// that a working directory that could not be left is only warned of. It reports
/// what went wrong.
pub proof fn law_stage2_gives_up_only_on_a_failure(event: Stage2Event, step: Stage2Step)
    requires
        call_ensures(run_as_daemon_stage2, (event,), step),
    ensures
        step is Exit <==> {
            ||| event matches Stage2Event::Topology { pid, sid, pgid } && !(sid matches Some(session)
                && session == pgid && session != pid)
            ||| event matches Stage2Event::PeerVerified(Err(_))
            ||| event matches Stage2Event::Claimed(Err(_))
            ||| event matches Stage2Event::HandshakeSent(Err(_))
        },
        step is RunDaemon <==> (event matches Stage2Event::HandshakeSent(Ok(_))),
        event is Started ==> step is ReadTopology,
        event matches Stage2Event::PeerVerified(Ok(_)) ==> step is Claim,
        event matches Stage2Event::Claimed(Ok(_)) ==> step is LeaveDirectory,
        event matches Stage2Event::DirectoryLeft(left) ==> (step matches Stage2Step::SendHandshake {
            warning,
        } && (warning is Some <==> left is Err)),
        event matches Stage2Event::DirectoryLeft(Err(err)) ==> (step matches
            Stage2Step::SendHandshake { warning: Some(text) } && ends_with(text@, err.message@)),
        event matches Stage2Event::PeerVerified(Err(err)) ==> (step matches Stage2Step::Exit {
            code,
            message,
        } && code == 1 && ends_with(message@, err.text())),
        event matches Stage2Event::Claimed(Err(err)) ==> (step matches Stage2Step::Exit {
            code,
            message,
        } && code == 2 && ends_with(message@, err.text())),
        event matches Stage2Event::HandshakeSent(Err(err)) ==> (step matches Stage2Step::Exit {
            code,
            message,
        } && code == 127 && ends_with(message@, err.text())),
{
    match event {
        Stage2Event::PeerVerified(Err(err)) => {
            lemma_ends_of_a_sum("daemon stage 2: "@, err.text());
        },
        Stage2Event::Claimed(Err(err)) => {
            lemma_ends_of_a_sum("daemon stage 2: "@, err.text());
        },
        Stage2Event::DirectoryLeft(Err(err)) => {
            lemma_ends_of_a_sum(
                "daemon stage 2: warning: chdir(\"/\") failed, keeping inherited working directory: "@,
                err.message@,
            );
        },
        Stage2Event::HandshakeSent(Err(err)) => {
            lemma_ends_of_a_sum(
                "daemon stage 2: failed to send build-id handshake to parent: "@,
                err.text(),
            );
        },
        _ => {},
    }
}

/// The second stage is shown the first stage's own first argument wherever that
/// is not empty, and an empty one is never passed on.
pub proof fn law_first_argument_is_passed_on(argv0: Option<Vec<u8>>, inherited: Option<Vec<u8>>)
    requires
        call_ensures(stage2_argv0, (argv0,), inherited),
    ensures
        inherited is Some <==> (argv0 matches Some(arg) && arg@.len() > 0),
        inherited is Some ==> inherited == argv0,
{
}

/// What is reported of a failed step is worded the same for every error: what
/// stands before the error's own text does not depend on the error.
pub proof fn law_wording_of_the_stages_is_fixed(
    system: SysError,
    other_system: SysError,
    spawn: SpawnDaemonError,
    other_spawn: SpawnDaemonError,
    io: IoError,
    other_io: IoError,
    send: ChannelSendError,
    other_send: ChannelSendError,
    peer: PeerCredError,
    claim: InheritedFdError,
)
    ensures
        lead(
            stage1_next(Stage1Event::SessionStarted(Err(system)))->Exit_1,
            system.error.message@,
        ) == lead(
            stage1_next(Stage1Event::SessionStarted(Err(other_system)))->Exit_1,
            other_system.error.message@,
        ),
        lead(stage1_next(Stage1Event::ExeResolved(Err(spawn)))->Exit_1, spawn.text()) == lead(
            stage1_next(Stage1Event::ExeResolved(Err(other_spawn)))->Exit_1,
            other_spawn.text(),
        ),
        lead(
            stage2_next(Stage2Event::DirectoryLeft(Err(io)))->SendHandshake_0->Some_0,
            io.message@,
        ) == lead(
            stage2_next(Stage2Event::DirectoryLeft(Err(other_io)))->SendHandshake_0->Some_0,
            other_io.message@,
        ),
        lead(stage2_next(Stage2Event::HandshakeSent(Err(send)))->Exit_1, send.text()) == lead(
            stage2_next(Stage2Event::HandshakeSent(Err(other_send)))->Exit_1,
            other_send.text(),
        ),
        lead(stage2_next(Stage2Event::PeerVerified(Err(peer)))->Exit_1, peer.text()) == lead(
            stage2_next(Stage2Event::Claimed(Err(claim)))->Exit_1,
            claim.text(),
        ),
{
    lemma_ends_of_a_sum("daemon stage 1: setsid() failed: "@, system.error.message@);
    lemma_ends_of_a_sum("daemon stage 1: setsid() failed: "@, other_system.error.message@);
    lemma_ends_of_a_sum(
        "daemon stage 1: cannot resolve the executable to re-exec for stage 2: "@,
        spawn.text(),
    );
    lemma_ends_of_a_sum(
        "daemon stage 1: cannot resolve the executable to re-exec for stage 2: "@,
        other_spawn.text(),
    );
    lemma_ends_of_a_sum(
        "daemon stage 2: warning: chdir(\"/\") failed, keeping inherited working directory: "@,
        io.message@,
    );
    lemma_ends_of_a_sum(
        "daemon stage 2: warning: chdir(\"/\") failed, keeping inherited working directory: "@,
        other_io.message@,
    );
    lemma_ends_of_a_sum(
        "daemon stage 2: failed to send build-id handshake to parent: "@,
        send.text(),
    );
    lemma_ends_of_a_sum(
        "daemon stage 2: failed to send build-id handshake to parent: "@,
        other_send.text(),
    );
    lemma_ends_of_a_sum("daemon stage 2: "@, peer.text());
    lemma_ends_of_a_sum("daemon stage 2: "@, claim.text());
}

/// Both stages know what to do after every event: there is no outcome of a step
/// that leaves them without a next one.
pub proof fn law_stages_answer_every_event(
    one: Stage1Event,
    two: Stage2Event,
    argv0: Option<Vec<u8>>,
)
    ensures
        call_requires(run_as_daemon_stage1, (one,)),
        call_requires(run_as_daemon_stage2, (two,)),
        call_requires(stage2_argv0, (argv0,)),
{
}

} // verus!
