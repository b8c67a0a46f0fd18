//! A helper daemon that plays one of a few fixed parts on the channel that it
//! inherited, so that what its parent sees of each can be observed.

use vstd::prelude::*;

use crate::echo_app::args::{debug_text, debug_text_of};
use crate::echo_app::messages::{
    encoded_number, is_received_request, number_in, received_request, TestRequest,
};
use crate::error::{
    joined, ChannelRecvError, ChannelSendError, CodecError, IoError, IoErrorKind, SysError,
};
use crate::text::{begins_with, ends_with, lemma_ends_of_a_sum, text_equal};

verus! {

/// How many milliseconds lie between two looks at whether the spawner is gone.
pub const SPAWNER_PAUSE_MILLIS: u64 = 10;

/// How many seconds each pause of an idle daemon lasts.
pub const IDLE_SECS: u64 = 60;

/// The part that the helper plays.
#[derive(Clone, Copy, Debug, PartialEq, Eq, Structural)]
pub enum Behavior {
    Echo,
    PanicAfterRequest,
    PanicBeforeRequest,
    ExitAfterRequest,
    ExitBeforeRequest,
    WriteToFdThenIdle,
    SpawnChildHoldingFdsThenExit,
    SentinelLoop,
    SendAfterParentExit,
    IdleWithoutHandshake,
    WrongHandshakeThenIdle,
    DoubleForkWrongHandshakeThenIdle,
    WritePidThenExit,
}

/// The part of this name.
pub open spec fn behavior_named(name: Seq<char>) -> Option<Behavior> {
    if name == "echo"@ {
        Some(Behavior::Echo)
    } else if name == "panic_after_request"@ {
        Some(Behavior::PanicAfterRequest)
    } else if name == "panic_before_request"@ {
        Some(Behavior::PanicBeforeRequest)
    } else if name == "exit_after_request"@ {
        Some(Behavior::ExitAfterRequest)
    } else if name == "exit_before_request"@ {
        Some(Behavior::ExitBeforeRequest)
    } else if name == "write_to_fd_then_idle"@ {
        Some(Behavior::WriteToFdThenIdle)
    } else if name == "spawn_child_holding_fds_then_exit"@ {
        Some(Behavior::SpawnChildHoldingFdsThenExit)
    } else if name == "sentinel_loop"@ {
        Some(Behavior::SentinelLoop)
    } else if name == "send_after_parent_exit"@ {
        Some(Behavior::SendAfterParentExit)
    } else if name == "idle_without_handshake"@ {
        Some(Behavior::IdleWithoutHandshake)
    } else if name == "wrong_handshake_then_idle"@ {
        Some(Behavior::WrongHandshakeThenIdle)
    } else if name == "double_fork_wrong_handshake_then_idle"@ {
        Some(Behavior::DoubleForkWrongHandshakeThenIdle)
    } else if name == "write_pid_then_exit"@ {
        Some(Behavior::WritePidThenExit)
    } else {
        None
    }
}

/// The part that the environment asks for: the echo where it asks for none, and
/// a complaint where there is no part of that name.
pub fn behavior_of(name: Option<&str>) -> (behavior: Result<Behavior, String>)
    ensures
        match name {
            None => behavior == Ok::<Behavior, String>(Behavior::Echo),
            Some(name) => match behavior_named(name@) {
                Some(b) => behavior == Ok::<Behavior, String>(b),
                None => behavior matches Err(text) && text@
                    == "daemon: unknown DAEMONIZABLE_TEST_BEHAVIOR="@ + debug_text_of(name@),
            },
        },
{
    let name = match name {
        Some(name) => name,
        None => {
            return Ok(Behavior::Echo);
        },
    };
    if text_equal(name, "echo") {
        Ok(Behavior::Echo)
    } else if text_equal(name, "panic_after_request") {
        Ok(Behavior::PanicAfterRequest)
    } else if text_equal(name, "panic_before_request") {
        Ok(Behavior::PanicBeforeRequest)
    } else if text_equal(name, "exit_after_request") {
        Ok(Behavior::ExitAfterRequest)
    } else if text_equal(name, "exit_before_request") {
        Ok(Behavior::ExitBeforeRequest)
    } else if text_equal(name, "write_to_fd_then_idle") {
        Ok(Behavior::WriteToFdThenIdle)
    } else if text_equal(name, "spawn_child_holding_fds_then_exit") {
        Ok(Behavior::SpawnChildHoldingFdsThenExit)
    } else if text_equal(name, "sentinel_loop") {
        Ok(Behavior::SentinelLoop)
    } else if text_equal(name, "send_after_parent_exit") {
        Ok(Behavior::SendAfterParentExit)
    } else if text_equal(name, "idle_without_handshake") {
        Ok(Behavior::IdleWithoutHandshake)
    } else if text_equal(name, "wrong_handshake_then_idle") {
        Ok(Behavior::WrongHandshakeThenIdle)
    } else if text_equal(name, "double_fork_wrong_handshake_then_idle") {
        Ok(Behavior::DoubleForkWrongHandshakeThenIdle)
    } else if text_equal(name, "write_pid_then_exit") {
        Ok(Behavior::WritePidThenExit)
    } else {
        Err(joined("daemon: unknown DAEMONIZABLE_TEST_BEHAVIOR=", debug_text(name).as_str()))
    }
}

/// One action of the helper.
#[derive(Clone, Copy, Debug, PartialEq, Eq, Structural)]
pub enum BackgroundAction {
    /// Answer each number with the next one until the parent is gone.
    Serve,
    /// Wait for one request.
    AwaitRequest,
    /// Panic after a request came in.
    PanicAfterRequest,
    /// Panic without having waited for a request.
    PanicBeforeRequest,
    /// Exit with code 0.
    Exit,
    /// Close the channel.
    CloseChannel,
    /// Write to the descriptor that should not have been inherited.
    WriteLeak,
    /// Write the process id to the pid file.
    WritePid,
    /// Start a new session.
    StartSession,
    /// Pause again and again.
    Idle,
    /// Spawn a process that outlives this one, and write its id to the pid
    /// file.
    SpawnSleeper,
    /// Write one tick after the other to the sentinel file.
    Tick,
    /// Give a write to a closed pipe its default effect, where that is asked
    /// for.
    RestoreSigpipe,
    /// Wait until the spawner is gone.
    AwaitSpawnerExit,
    /// Send a response, and record how that went.
    SendAndRecord,
    /// Send a build id that nobody expects.
    SendWrongHandshake,
    /// Fork, go on in the child, and exit at once in the parent.
    Fork,
}

/// What the helper does in this part, in this order.
pub open spec fn background_plan(behavior: Behavior) -> Seq<BackgroundAction> {
    match behavior {
        Behavior::Echo => seq![BackgroundAction::Serve],
        Behavior::PanicAfterRequest => seq![
            BackgroundAction::AwaitRequest,
            BackgroundAction::PanicAfterRequest,
        ],
        Behavior::PanicBeforeRequest => seq![BackgroundAction::PanicBeforeRequest],
        Behavior::ExitAfterRequest => seq![BackgroundAction::AwaitRequest, BackgroundAction::Exit],
        Behavior::ExitBeforeRequest => seq![BackgroundAction::Exit],
        Behavior::WriteToFdThenIdle => seq![
            BackgroundAction::CloseChannel,
            BackgroundAction::WriteLeak,
            BackgroundAction::WritePid,
            BackgroundAction::StartSession,
            BackgroundAction::Idle,
        ],
        Behavior::SpawnChildHoldingFdsThenExit => seq![
            BackgroundAction::SpawnSleeper,
            BackgroundAction::CloseChannel,
            BackgroundAction::Exit,
        ],
        Behavior::SentinelLoop => seq![
            BackgroundAction::CloseChannel,
            BackgroundAction::WritePid,
            BackgroundAction::StartSession,
            BackgroundAction::Tick,
        ],
        Behavior::SendAfterParentExit => seq![
            BackgroundAction::WritePid,
            BackgroundAction::RestoreSigpipe,
            BackgroundAction::AwaitSpawnerExit,
            BackgroundAction::SendAndRecord,
            BackgroundAction::Exit,
        ],
        Behavior::IdleWithoutHandshake => seq![BackgroundAction::WritePid, BackgroundAction::Idle],
        Behavior::WrongHandshakeThenIdle => seq![
            BackgroundAction::WritePid,
            BackgroundAction::SendWrongHandshake,
            BackgroundAction::Idle,
        ],
        Behavior::DoubleForkWrongHandshakeThenIdle => seq![
            BackgroundAction::StartSession,
            BackgroundAction::Fork,
            BackgroundAction::WritePid,
            BackgroundAction::SendWrongHandshake,
            BackgroundAction::Idle,
        ],
        Behavior::WritePidThenExit => seq![
            BackgroundAction::WritePid,
            BackgroundAction::CloseChannel,
            BackgroundAction::Exit,
        ],
    }
}

/// What the helper does in this part, in this order.
pub fn background_actions(behavior: Behavior) -> (actions: Vec<BackgroundAction>)
    ensures
        actions@ == background_plan(behavior),
{
    let actions: Vec<BackgroundAction> = match behavior {
        Behavior::Echo => vec![BackgroundAction::Serve],
        Behavior::PanicAfterRequest => vec![
            BackgroundAction::AwaitRequest,
            BackgroundAction::PanicAfterRequest,
        ],
        Behavior::PanicBeforeRequest => vec![BackgroundAction::PanicBeforeRequest],
        Behavior::ExitAfterRequest => vec![BackgroundAction::AwaitRequest, BackgroundAction::Exit],
        Behavior::ExitBeforeRequest => vec![BackgroundAction::Exit],
        Behavior::WriteToFdThenIdle => vec![
            BackgroundAction::CloseChannel,
            BackgroundAction::WriteLeak,
            BackgroundAction::WritePid,
            BackgroundAction::StartSession,
            BackgroundAction::Idle,
        ],
        Behavior::SpawnChildHoldingFdsThenExit => vec![
            BackgroundAction::SpawnSleeper,
            BackgroundAction::CloseChannel,
            BackgroundAction::Exit,
        ],
        Behavior::SentinelLoop => vec![
            BackgroundAction::CloseChannel,
            BackgroundAction::WritePid,
            BackgroundAction::StartSession,
            BackgroundAction::Tick,
        ],
        Behavior::SendAfterParentExit => vec![
            BackgroundAction::WritePid,
            BackgroundAction::RestoreSigpipe,
            BackgroundAction::AwaitSpawnerExit,
            BackgroundAction::SendAndRecord,
            BackgroundAction::Exit,
        ],
        Behavior::IdleWithoutHandshake => vec![BackgroundAction::WritePid, BackgroundAction::Idle],
        Behavior::WrongHandshakeThenIdle => vec![
            BackgroundAction::WritePid,
            BackgroundAction::SendWrongHandshake,
            BackgroundAction::Idle,
        ],
        Behavior::DoubleForkWrongHandshakeThenIdle => vec![
            BackgroundAction::StartSession,
            BackgroundAction::Fork,
            BackgroundAction::WritePid,
            BackgroundAction::SendWrongHandshake,
            BackgroundAction::Idle,
        ],
        Behavior::WritePidThenExit => vec![
            BackgroundAction::WritePid,
            BackgroundAction::CloseChannel,
            BackgroundAction::Exit,
        ],
    };
    assert(actions@ =~= background_plan(behavior));
    actions
}

/// Whether nothing comes after this action.
pub open spec fn is_final(action: BackgroundAction) -> bool {
    match action {
        BackgroundAction::Serve => true,
        BackgroundAction::PanicAfterRequest => true,
        BackgroundAction::PanicBeforeRequest => true,
        BackgroundAction::Exit => true,
        BackgroundAction::Idle => true,
        BackgroundAction::Tick => true,
        _ => false,
    }
}

/// Every part ends with an action that nothing comes after, and has no such
/// action before.
pub proof fn law_every_behavior_ends(behavior: Behavior)
    ensures
        background_plan(behavior).len() > 0,
        is_final(background_plan(behavior).last()),
        forall|i: int|
            0 <= i < background_plan(behavior).len() - 1 ==> !is_final(
                #[trigger] background_plan(behavior)[i],
            ),
{
}

/// Where a helper sends anything that its parent may kill it for, its pid has
/// been written before.
pub proof fn law_pid_comes_before_the_wrong_handshake(behavior: Behavior, i: int)
    requires
        0 <= i < background_plan(behavior).len(),
        background_plan(behavior)[i] == BackgroundAction::SendWrongHandshake,
    ensures
        i > 0 && background_plan(behavior)[i - 1] == BackgroundAction::WritePid,
{
}

/// How the last step of the echo went.
#[derive(Debug)]
pub enum ServeEvent {
    /// The echo begins.
    Started,
    /// The payload of the next request, or why there is none.
    Requested(Result<Vec<u8>, ChannelRecvError>),
    /// How sending the response went.
    Answered(Result<(), ChannelSendError>),
}

/// What the echo does next.
#[derive(Debug)]
pub enum ServeStep {
    /// Wait for the next request.
    NextRequest,
    /// Send the response with this encoding.
    Answer(Result<Vec<u8>, CodecError>),
    /// Exit with `code`, after reporting `report` where there is one.
    Exit { code: i32, report: Option<String> },
    /// Give up: this should not have happened.
    Panic { message: String },
}

/// Whether `step` is what the echo does with the request in what was received.
pub open spec fn is_served(request: Result<TestRequest, ChannelRecvError>, step: ServeStep) -> bool {
    match request {
        Ok(request) => if request.v == i32::MAX {
            step matches ServeStep::Panic { message } && message@ == "attempt to add with overflow"@
        } else {
            step matches ServeStep::Answer(Ok(bytes)) && bytes@ == encoded_number(
                (request.v + 1) as i32,
            ) && number_in(bytes@) == Some((request.v + 1) as i32)
        },
        Err(ChannelRecvError::SenderClosed) => step == (ServeStep::Exit { code: 0, report: None }),
        Err(err) => step matches ServeStep::Exit { code, report: Some(text) } && code == 1 && text@
            == "daemon: echo receive failed: "@ + err.text(),
    }
}

/// The echo: each number is answered with the next one, the end of the channel
/// is the end of the echo, and any other failed receive is a failure. A request
/// and a response are records of one number each.
pub fn serve_echo(event: ServeEvent) -> (step: ServeStep)
    ensures
        match event {
            ServeEvent::Started => step is NextRequest,
            ServeEvent::Requested(received) => exists|
                request: Result<TestRequest, ChannelRecvError>,
            | #[trigger]
                is_received_request(received, request) && is_served(request, step),
            ServeEvent::Answered(Ok(_)) => step is NextRequest,
            ServeEvent::Answered(Err(err)) => step matches ServeStep::Panic { message } && message@
                == "daemon: failed to send response: "@ + err.debug_text(),
        },
{
    match event {
        ServeEvent::Started => ServeStep::NextRequest,
        ServeEvent::Requested(received) => {
            let request = received_request(received);
            assert(is_received_request(received, request));
            match request {
                Ok(request) => if request.v == i32::MAX {
                    ServeStep::Panic { message: "attempt to add with overflow".to_string() }
                } else {
                    ServeStep::Answer(TestRequest { v: request.v + 1 }.encode())
                },
                Err(ChannelRecvError::SenderClosed) => ServeStep::Exit { code: 0, report: None },
                Err(err) => ServeStep::Exit {
                    code: 1,
                    report: Some(joined("daemon: echo receive failed: ", err.message().as_str())),
                },
            }
        },
        ServeEvent::Answered(Ok(())) => ServeStep::NextRequest,
        ServeEvent::Answered(Err(err)) => ServeStep::Panic {
            message: joined("daemon: failed to send response: ", err.debug_message().as_str()),
        },
    }
}

/// The record of a send to a parent that is gone.
pub fn send_outcome(sent: &Result<(), ChannelSendError>) -> (text: String)
    ensures
        text@ == match sent {
            Ok(_) => "send:unexpected_success"@,
            Err(err) => if (err matches ChannelSendError::Io(io) && io.kind
                == IoErrorKind::BrokenPipe) {
                "send:broken_pipe"@
            } else {
                "send:unexpected_error:"@ + err.debug_text()
            },
        },
{
    match sent {
        Ok(()) => "send:unexpected_success".to_string(),
        Err(err) => {
            let broken_pipe = match err {
                ChannelSendError::Io(io) => io.kind == IoErrorKind::BrokenPipe,
                _ => false,
            };
            if broken_pipe {
                "send:broken_pipe".to_string()
            } else {
                joined("send:unexpected_error:", err.debug_message().as_str())
            }
        },
    }
}

/// What is reported where no new session could be started.
pub fn session_failure(err: &SysError) -> (text: String)
    ensures
        text@ == "daemon: setsid failed: "@ + err.error.message@,
{
    joined("daemon: setsid failed: ", err.error.message.as_str())
}

/// What is reported where the fork failed.
pub fn fork_failure(err: &IoError) -> (text: String)
    ensures
        text@ == "daemon: fork failed: "@ + err.message@,
{
    joined("daemon: fork failed: ", err.message.as_str())
}

/// What a part is called in the environment.
pub open spec fn name_of(behavior: Behavior) -> Seq<char> {
    match behavior {
        Behavior::WritePidThenExit => "write_pid_then_exit"@,
        Behavior::DoubleForkWrongHandshakeThenIdle => "double_fork_wrong_handshake_then_idle"@,
        Behavior::WrongHandshakeThenIdle => "wrong_handshake_then_idle"@,
        Behavior::IdleWithoutHandshake => "idle_without_handshake"@,
        Behavior::SendAfterParentExit => "send_after_parent_exit"@,
        Behavior::SentinelLoop => "sentinel_loop"@,
        Behavior::SpawnChildHoldingFdsThenExit => "spawn_child_holding_fds_then_exit"@,
        Behavior::WriteToFdThenIdle => "write_to_fd_then_idle"@,
        Behavior::ExitBeforeRequest => "exit_before_request"@,
        Behavior::ExitAfterRequest => "exit_after_request"@,
        Behavior::PanicBeforeRequest => "panic_before_request"@,
        Behavior::PanicAfterRequest => "panic_after_request"@,
        Behavior::Echo => "echo"@,
    }
}

proof fn lemma_names_differ()
    ensures
        forall|a: Behavior, b: Behavior| #[trigger] name_of(a) == #[trigger] name_of(b) ==> a == b,
{
    reveal_strlit("write_pid_then_exit");
    reveal_strlit("double_fork_wrong_handshake_then_idle");
    reveal_strlit("wrong_handshake_then_idle");
    reveal_strlit("idle_without_handshake");
    reveal_strlit("send_after_parent_exit");
    reveal_strlit("sentinel_loop");
    reveal_strlit("spawn_child_holding_fds_then_exit");
    reveal_strlit("write_to_fd_then_idle");
    reveal_strlit("exit_before_request");
    reveal_strlit("exit_after_request");
    reveal_strlit("panic_before_request");
    reveal_strlit("panic_after_request");
    reveal_strlit("echo");
    assert forall|a: Behavior, b: Behavior| #[trigger] name_of(a) == #[trigger] name_of(b) implies a
        == b by {
        assert(name_of(a).len() == name_of(b).len());
        assert(name_of(a)[0] == name_of(b)[0]);
        assert(name_of(a)[1] == name_of(b)[1]);
        assert(name_of(a)[3] == name_of(b)[3]);
        assert(name_of(Behavior::ExitBeforeRequest).len() == 19);
        assert(name_of(Behavior::WritePidThenExit).len() == 19);
        assert(name_of(Behavior::PanicAfterRequest).len() == 19);
        assert(name_of(Behavior::IdleWithoutHandshake).len() == 22);
        assert(name_of(Behavior::SendAfterParentExit).len() == 22);
    }
}

/// Every part has a name of its own, and that name asks for it; no other text
/// asks for any, and no name asks for the echo.
pub proof fn law_every_part_is_asked_for_by_its_name(
    behavior: Behavior,
    name: &str,
    asked: Result<Behavior, String>,
    unasked: Result<Behavior, String>,
)
    requires
        call_ensures(behavior_of, (Some(name),), asked),
        call_ensures(behavior_of, (None::<&str>,), unasked),
    ensures
        name@ == name_of(behavior) ==> asked == Ok::<Behavior, String>(behavior),
        asked matches Ok(found) ==> name@ == name_of(found),
        asked matches Err(text) ==> ends_with(text@, debug_text_of(name@)),
        unasked == Ok::<Behavior, String>(Behavior::Echo),
{
    lemma_names_differ();
    lemma_ends_of_a_sum("daemon: unknown DAEMONIZABLE_TEST_BEHAVIOR="@, debug_text_of(name@));
    let n = name_of(behavior);
    assert(n == name_of(behavior));
    assert("echo"@ == name_of(Behavior::Echo));
    assert("panic_after_request"@ == name_of(Behavior::PanicAfterRequest));
    assert("panic_before_request"@ == name_of(Behavior::PanicBeforeRequest));
    assert("exit_after_request"@ == name_of(Behavior::ExitAfterRequest));
    assert("exit_before_request"@ == name_of(Behavior::ExitBeforeRequest));
    assert("write_to_fd_then_idle"@ == name_of(Behavior::WriteToFdThenIdle));
    assert("spawn_child_holding_fds_then_exit"@ == name_of(Behavior::SpawnChildHoldingFdsThenExit));
    assert("sentinel_loop"@ == name_of(Behavior::SentinelLoop));
    assert("send_after_parent_exit"@ == name_of(Behavior::SendAfterParentExit));
    assert("idle_without_handshake"@ == name_of(Behavior::IdleWithoutHandshake));
    assert("wrong_handshake_then_idle"@ == name_of(Behavior::WrongHandshakeThenIdle));
    assert("double_fork_wrong_handshake_then_idle"@ == name_of(
        Behavior::DoubleForkWrongHandshakeThenIdle,
    ));
    assert("write_pid_then_exit"@ == name_of(Behavior::WritePidThenExit));
}

/// Whether `action` is what a part does at place `i`.
pub open spec fn comes_at(behavior: Behavior, action: BackgroundAction, i: int) -> bool {
    0 <= i < background_plan(behavior).len() && background_plan(behavior)[i] == action
}

/// A part waits for a request exactly where its name says that something happens
/// after one, and panics or exits where its name says so; it serves only where it
/// is the echo; it leaves its pid wherever somebody has to find it later; it has
/// a session of its own wherever it outlives its parent's group; and it sends a
/// wrong build id exactly where its name says so.
pub proof fn law_part_does_what_its_name_says(behavior: Behavior)
    ensures
        background_plan(behavior).contains(BackgroundAction::AwaitRequest) <==> (behavior
            == Behavior::PanicAfterRequest || behavior == Behavior::ExitAfterRequest),
        background_plan(behavior).contains(BackgroundAction::PanicAfterRequest) <==> behavior
            == Behavior::PanicAfterRequest,
        background_plan(behavior).contains(BackgroundAction::PanicBeforeRequest) <==> behavior
            == Behavior::PanicBeforeRequest,
        background_plan(behavior).contains(BackgroundAction::Serve) <==> behavior == Behavior::Echo,
        background_plan(behavior).contains(BackgroundAction::SendWrongHandshake) <==> (behavior
            == Behavior::WrongHandshakeThenIdle || behavior
            == Behavior::DoubleForkWrongHandshakeThenIdle),
        background_plan(behavior).contains(BackgroundAction::Fork) <==> behavior
            == Behavior::DoubleForkWrongHandshakeThenIdle,
        background_plan(behavior).contains(BackgroundAction::WriteLeak) <==> behavior
            == Behavior::WriteToFdThenIdle,
        background_plan(behavior).contains(BackgroundAction::SpawnSleeper) <==> behavior
            == Behavior::SpawnChildHoldingFdsThenExit,
        background_plan(behavior).contains(BackgroundAction::Tick) <==> behavior
            == Behavior::SentinelLoop,
        background_plan(behavior).contains(BackgroundAction::SendAndRecord) <==> behavior
            == Behavior::SendAfterParentExit,
        background_plan(behavior).contains(BackgroundAction::AwaitSpawnerExit) <==> behavior
            == Behavior::SendAfterParentExit,
        background_plan(behavior).contains(BackgroundAction::RestoreSigpipe) <==> behavior
            == Behavior::SendAfterParentExit,
        background_plan(behavior).contains(BackgroundAction::StartSession) <==> (behavior
            == Behavior::WriteToFdThenIdle || behavior == Behavior::SentinelLoop || behavior
            == Behavior::DoubleForkWrongHandshakeThenIdle),
        background_plan(behavior).contains(BackgroundAction::CloseChannel) <==> (behavior
            == Behavior::WriteToFdThenIdle || behavior == Behavior::SentinelLoop || behavior
            == Behavior::SpawnChildHoldingFdsThenExit || behavior == Behavior::WritePidThenExit),
        background_plan(behavior).contains(BackgroundAction::Idle) <==> (behavior
            == Behavior::WriteToFdThenIdle || behavior == Behavior::IdleWithoutHandshake || behavior
            == Behavior::WrongHandshakeThenIdle || behavior
            == Behavior::DoubleForkWrongHandshakeThenIdle),
        background_plan(behavior).contains(BackgroundAction::Exit) <==> (behavior
            == Behavior::ExitAfterRequest || behavior == Behavior::ExitBeforeRequest || behavior
            == Behavior::SpawnChildHoldingFdsThenExit || behavior == Behavior::SendAfterParentExit
            || behavior == Behavior::WritePidThenExit),
        background_plan(behavior).contains(BackgroundAction::WritePid) <==> (behavior
            == Behavior::WriteToFdThenIdle || behavior == Behavior::SentinelLoop || behavior
            == Behavior::SendAfterParentExit || behavior == Behavior::IdleWithoutHandshake
            || behavior == Behavior::WrongHandshakeThenIdle || behavior
            == Behavior::DoubleForkWrongHandshakeThenIdle || behavior == Behavior::WritePidThenExit),
{
    let plan = background_plan(behavior);
    assert(plan.len() > 0 ==> plan.contains(plan[0]));
    assert(plan.len() > 1 ==> plan.contains(plan[1]));
    assert(plan.len() > 2 ==> plan.contains(plan[2]));
    assert(plan.len() > 3 ==> plan.contains(plan[3]));
    assert(plan.len() > 4 ==> plan.contains(plan[4]));
}

/// The order in a part is the one that makes it what it is: the channel is closed
/// before anything leaks or ticks, a session is left before the fork, the pid is
/// written by the process that stays, and before anything that can go wrong for
/// it, and what is recorded of a send is a send to a spawner that is gone.
pub proof fn law_part_keeps_its_order(behavior: Behavior, i: int, j: int)
    ensures
        comes_at(behavior, BackgroundAction::CloseChannel, i) && comes_at(
            behavior,
            BackgroundAction::WriteLeak,
            j,
        ) ==> i < j,
        comes_at(behavior, BackgroundAction::WriteLeak, i) && comes_at(
            behavior,
            BackgroundAction::WritePid,
            j,
        ) ==> i < j,
        comes_at(behavior, BackgroundAction::CloseChannel, i) && comes_at(
            behavior,
            BackgroundAction::Tick,
            j,
        ) ==> i < j,
        comes_at(behavior, BackgroundAction::StartSession, i) && comes_at(
            behavior,
            BackgroundAction::Fork,
            j,
        ) ==> i < j,
        comes_at(behavior, BackgroundAction::Fork, i) && comes_at(
            behavior,
            BackgroundAction::WritePid,
            j,
        ) ==> i < j,
        comes_at(behavior, BackgroundAction::SpawnSleeper, i) && comes_at(
            behavior,
            BackgroundAction::CloseChannel,
            j,
        ) ==> i < j,
        comes_at(behavior, BackgroundAction::WritePid, i) && comes_at(
            behavior,
            BackgroundAction::AwaitSpawnerExit,
            j,
        ) ==> i < j,
        comes_at(behavior, BackgroundAction::RestoreSigpipe, i) && comes_at(
            behavior,
            BackgroundAction::SendAndRecord,
            j,
        ) ==> i < j,
        comes_at(behavior, BackgroundAction::AwaitSpawnerExit, i) && comes_at(
            behavior,
            BackgroundAction::SendAndRecord,
            j,
        ) ==> i < j,
        comes_at(behavior, BackgroundAction::AwaitRequest, i) ==> i == 0,
{
}

/// What the helper does in a part is the plan of that part.
pub proof fn law_helper_follows_its_plan(behavior: Behavior, actions: Vec<BackgroundAction>)
    requires
        call_ensures(background_actions, (behavior,), actions),
    ensures
        actions@ == background_plan(behavior),
{
}

/// The echo answers every number that has a next one with that, goes on after
/// each answer that went out, ends with success where its parent is gone, and
/// fails with a report of the error on any other failed receive or send.
pub proof fn law_echo_answers_with_the_next_number(
    v: i32,
    request: Vec<u8>,
    answered: ServeStep,
    sent: Result<(), ChannelSendError>,
    after: ServeStep,
    err: ChannelRecvError,
    failed: ServeStep,
    begun: ServeStep,
)
    requires
        number_in(request@) == Some(v),
        call_ensures(
            serve_echo,
            (ServeEvent::Requested(Ok::<Vec<u8>, ChannelRecvError>(request)),),
            answered,
        ),
        call_ensures(serve_echo, (ServeEvent::Answered(sent),), after),
        call_ensures(
            serve_echo,
            (ServeEvent::Requested(Err::<Vec<u8>, ChannelRecvError>(err)),),
            failed,
        ),
        call_ensures(serve_echo, (ServeEvent::Started,), begun),
    ensures
        v < i32::MAX ==> (answered matches ServeStep::Answer(Ok(bytes)) && number_in(bytes@) == Some(
            (v + 1) as i32,
        )),
        v == i32::MAX ==> answered is Panic,
        sent is Ok ==> after is NextRequest,
        sent matches Err(e) ==> (after matches ServeStep::Panic { message } && ends_with(
            message@,
            e.debug_text(),
        )),
        err is SenderClosed ==> (failed matches ServeStep::Exit { code, report } && code == 0
            && report is None),
        !(err is SenderClosed) ==> (failed matches ServeStep::Exit { code, report: Some(text) } && code
            == 1 && ends_with(text@, err.text())),
        begun is NextRequest,
{
    if let Err(e) = sent {
        lemma_ends_of_a_sum("daemon: failed to send response: "@, e.debug_text());
    }
    lemma_ends_of_a_sum("daemon: echo receive failed: "@, err.text());
}

/// A send to a parent that is gone is recorded as what it was: a broken pipe, a
/// success that nobody expected, or an error that is shown.
pub proof fn law_outcome_of_a_send_is_told_apart(sent: &Result<(), ChannelSendError>, text: String)
    requires
        call_ensures(send_outcome, (sent,), text),
    ensures
        sent matches Ok(_) ==> text@ == "send:unexpected_success"@,
        sent matches Err(ChannelSendError::Io(io)) ==> io.kind == IoErrorKind::BrokenPipe ==> text@
            == "send:broken_pipe"@,
        sent matches Err(err) ==> !(err matches ChannelSendError::Io(io) && io.kind
            == IoErrorKind::BrokenPipe) ==> ends_with(text@, err.debug_text()) && begins_with(
            text@,
            "send:unexpected_error:"@,
        ),
{
    if let Err(err) = sent {
        lemma_ends_of_a_sum("send:unexpected_error:"@, err.debug_text());
    }
}

/// The helper knows what to do for every name and after every event.
pub proof fn law_helper_answers_every_event(
    name: Option<&str>,
    behavior: Behavior,
    event: ServeEvent,
    sent: &Result<(), ChannelSendError>,
)
    ensures
        call_requires(behavior_of, (name,)),
        call_requires(background_actions, (behavior,)),
        call_requires(serve_echo, (event,)),
        call_requires(send_outcome, (sent,)),
{
}

} // verus!
