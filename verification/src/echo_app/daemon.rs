//! The daemon: it answers each number with the next one.

use vstd::prelude::*;

use crate::echo_app::messages::{
    encoded_response, is_received_request, number_in, received_request, response_in, ResponseView,
    TestRequest, TestResponse,
};
use crate::error::{joined, ChannelRecvError, ChannelSendError, CodecError};
use crate::stdio::DetachStdioError;
use crate::text::{ends_with, lemma_ends_of_a_sum};

verus! {

/// How many milliseconds lie between two ticks of a daemon that stays alive.
pub const TICK_MILLIS: u64 = 50;

/// What a daemon reports of itself in every answer.
#[derive(Debug)]
pub struct DaemonIdentity {
    pub daemon_cwd: String,
    pub marker: String,
    pub argv1: String,
    pub pid: u32,
    pub sid: i32,
}

/// The answer to the number `v` of a daemon with this identity.
pub open spec fn answer(identity: DaemonIdentity, v: int) -> ResponseView {
    ResponseView {
        v: (v + 1) as i32,
        daemon_cwd: identity.daemon_cwd@,
        marker: identity.marker@,
        argv1: identity.argv1@,
        pid: identity.pid,
        sid: identity.sid,
    }
}

/// What the daemon says of itself: its working directory where that is known,
/// whether the environment marks it as a daemon child, whether it has
/// arguments, and its ids.
pub fn daemon_identity(
    cwd: Option<String>,
    marker_is_set: bool,
    has_argument: bool,
    pid: u32,
    sid: i32,
) -> (identity: DaemonIdentity)
    ensures
        identity.daemon_cwd@ == match cwd {
            Some(path) => path@,
            None => "<unknown>"@,
        },
        identity.marker@ == (if marker_is_set {
            "set"@
        } else {
            "removed"@
        }),
        identity.argv1@ == (if has_argument {
            "present"@
        } else {
            "empty"@
        }),
        identity.pid == pid,
        identity.sid == sid,
{
    let daemon_cwd = match cwd {
        Some(path) => path,
        None => "<unknown>".to_string(),
    };
    let marker = if marker_is_set {
        "set".to_string()
    } else {
        "removed".to_string()
    };
    let argv1 = if has_argument {
        "present".to_string()
    } else {
        "empty".to_string()
    };
    DaemonIdentity { daemon_cwd, marker, argv1, pid, sid }
}

/// The answer to a request.
pub fn respond(identity: &DaemonIdentity, request: TestRequest) -> (response: TestResponse)
    requires
        request.v < i32::MAX,
    ensures
        response@ == answer(*identity, request.v as int),
{
    TestResponse {
        v: request.v + 1,
        daemon_cwd: identity.daemon_cwd.clone(),
        marker: identity.marker.clone(),
        argv1: identity.argv1.clone(),
        pid: identity.pid,
        sid: identity.sid,
    }
}

/// How the last step of the daemon went.
#[derive(Debug)]
pub enum DaemonEvent {
    /// The daemon begins.
    Started,
    /// The payload of the next request, or why there is none.
    Requested(Result<Vec<u8>, ChannelRecvError>),
    /// How sending the answer went.
    Answered(Result<(), ChannelSendError>),
    /// How detaching the standard streams went.
    Detached(Result<(), DetachStdioError>),
    /// The tick of this number was written, or could not be; either way the
    /// pause after it is over.
    Ticked(u64),
}

/// What the daemon does next.
#[derive(Debug)]
pub enum DaemonStep {
    /// Wait for the next request.
    NextRequest,
    /// Send the answer with this encoding.
    Answer(Result<Vec<u8>, CodecError>),
    /// Detach the standard streams.
    Detach,
    /// Write the tick of this number to the sentinel file, then pause. The
    /// channel is closed before the first one.
    Tick(u64),
    /// Exit with `code`, after reporting `report` where there is one.
    Exit { code: i32, report: Option<String> },
    /// Give up: this should not have happened.
    Panic { message: String },
}

/// What the daemon does next, as contracts see it.
pub enum DaemonNext {
    NextRequest,
    Answer(Result<Seq<u8>, CodecError>),
    Detach,
    Tick(u64),
    Exit(int, Option<Seq<char>>),
    Panic(Seq<char>),
}

impl View for DaemonStep {
    type V = DaemonNext;

    open spec fn view(&self) -> DaemonNext {
        match self {
            DaemonStep::NextRequest => DaemonNext::NextRequest,
            DaemonStep::Answer(Ok(bytes)) => DaemonNext::Answer(Ok(bytes@)),
            DaemonStep::Answer(Err(err)) => DaemonNext::Answer(Err(*err)),
            DaemonStep::Detach => DaemonNext::Detach,
            DaemonStep::Tick(n) => DaemonNext::Tick(*n),
            DaemonStep::Exit { code, report } => DaemonNext::Exit(
                *code as int,
                match report {
                    Some(text) => Some(text@),
                    None => None,
                },
            ),
            DaemonStep::Panic { message } => DaemonNext::Panic(message@),
        }
    }
}

/// The number that was asked for, where a request came in that carries one.
pub open spec fn requested_number(received: Result<Vec<u8>, ChannelRecvError>) -> Option<i32> {
    match received {
        Ok(bytes) => number_in(bytes@),
        Err(_) => None,
    }
}

/// What the daemon does with a request, or where there is none.
pub open spec fn request_next(
    identity: DaemonIdentity,
    has_sentinel: bool,
    request: Result<TestRequest, ChannelRecvError>,
) -> DaemonNext {
    match request {
        Ok(request) => if request.v == i32::MAX {
            DaemonNext::Panic("attempt to add with overflow"@)
        } else {
            DaemonNext::Answer(Ok(encoded_response(answer(identity, request.v as int))))
        },
        Err(err) => if has_sentinel {
            DaemonNext::Panic("daemon: expected the parent's request: "@ + err.debug_text())
        } else {
            DaemonNext::Exit(0, None)
        },
    }
}

/// Whether `next` is what the daemon does after `event`. With a sentinel to
/// write, it answers one request and then outlives its parent; without one, it
/// answers until its parent is gone.
pub open spec fn is_daemon_next(
    identity: DaemonIdentity,
    has_sentinel: bool,
    event: DaemonEvent,
    next: DaemonNext,
) -> bool {
    match event {
        DaemonEvent::Started => next == DaemonNext::NextRequest,
        DaemonEvent::Requested(received) => exists|request: Result<TestRequest, ChannelRecvError>|
            #[trigger] is_received_request(received, request) && next == request_next(
                identity,
                has_sentinel,
                request,
            ),
        DaemonEvent::Answered(Ok(_)) => next == (if has_sentinel {
            DaemonNext::Detach
        } else {
            DaemonNext::NextRequest
        }),
        DaemonEvent::Answered(Err(err)) => next == DaemonNext::Panic(
            "daemon: failed to send response: "@ + err.debug_text(),
        ),
        DaemonEvent::Detached(Ok(_)) => next == DaemonNext::Tick(1),
        DaemonEvent::Detached(Err(err)) => next == DaemonNext::Exit(
            1,
            Some("daemon: detach_stdio failed: "@ + err.text()),
        ),
        DaemonEvent::Ticked(n) => next == DaemonNext::Tick((n + 1) as u64),
    }
}

/// A number comes back as the next one: a request that carries `v` is answered
/// with bytes that carry `v + 1`, with a sentinel or without, unless there is no
/// next number.
pub proof fn law_number_comes_back_as_the_next(
    identity: DaemonIdentity,
    has_sentinel: bool,
    request: Vec<u8>,
    v: i32,
    next: DaemonNext,
)
    requires
        number_in(request@) == Some(v),
        v < i32::MAX,
        is_daemon_next(identity, has_sentinel, DaemonEvent::Requested(Ok(request)), next),
    ensures
        next == DaemonNext::Answer(Ok(encoded_response(answer(identity, v as int)))),
        answer(identity, v as int).v == v + 1,
{
}

/// What the daemon does with a request, or where there is none: it answers with
/// the next number. Without a request it gives up where it has a sentinel to
/// write, and ends where it has none.
pub fn answer_request(
    identity: &DaemonIdentity,
    has_sentinel: bool,
    request: Result<TestRequest, ChannelRecvError>,
) -> (step: DaemonStep)
    ensures
        step@ == request_next(*identity, has_sentinel, request),
        (step matches DaemonStep::Answer(Ok(bytes)) && request is Ok) ==> response_in(
            step->Answer_0->Ok_0@,
        ) == Some(answer(*identity, request->Ok_0.v as int)),
{
    match request {
        Ok(request) => if request.v == i32::MAX {
            DaemonStep::Panic { message: "attempt to add with overflow".to_string() }
        } else {
            DaemonStep::Answer(respond(identity, request).encode())
        },
        Err(err) => if has_sentinel {
            DaemonStep::Panic {
                message: joined(
                    "daemon: expected the parent's request: ",
                    err.debug_message().as_str(),
                ),
            }
        } else {
            DaemonStep::Exit { code: 0, report: None }
        },
    }
}

/// Run the daemon, step by step.
pub fn run_daemon(identity: &DaemonIdentity, has_sentinel: bool, event: DaemonEvent) -> (step:
    DaemonStep)
    requires
        event matches DaemonEvent::Ticked(n) ==> n < u64::MAX,
    ensures
        is_daemon_next(*identity, has_sentinel, event, step@),
        (step matches DaemonStep::Answer(Ok(bytes)) && event matches DaemonEvent::Requested(
            received,
        )) ==> response_in(step->Answer_0->Ok_0@) == Some(
            answer(*identity, requested_number(event->Requested_0)->Some_0 as int),
        ),
{
    match event {
        DaemonEvent::Started => DaemonStep::NextRequest,
        DaemonEvent::Requested(received) => {
            let request = received_request(received);
            assert(is_received_request(received, request));
            answer_request(identity, has_sentinel, request)
        },
        DaemonEvent::Answered(Ok(())) => if has_sentinel {
            DaemonStep::Detach
        } else {
            DaemonStep::NextRequest
        },
        DaemonEvent::Answered(Err(err)) => DaemonStep::Panic {
            message: joined("daemon: failed to send response: ", err.debug_message().as_str()),
        },
        DaemonEvent::Detached(Ok(())) => DaemonStep::Tick(1),
        DaemonEvent::Detached(Err(err)) => DaemonStep::Exit {
            code: 1,
            report: Some(joined("daemon: detach_stdio failed: ", err.message().as_str())),
        },
        DaemonEvent::Ticked(n) => DaemonStep::Tick(n + 1),
    }
}

/// Every answer says of its daemon what the daemon was told of itself, and
/// carries the next number.
pub proof fn law_answer_identifies_its_daemon(
    cwd: Option<String>,
    marker_is_set: bool,
    has_argument: bool,
    pid: u32,
    sid: i32,
    identity: DaemonIdentity,
    request: TestRequest,
    response: TestResponse,
)
    requires
        request.v < i32::MAX,
        call_ensures(daemon_identity, (cwd, marker_is_set, has_argument, pid, sid), identity),
        call_ensures(respond, (&identity, request), response),
    ensures
        response.v == request.v + 1,
        response.pid == pid,
        response.sid == sid,
        cwd matches Some(path) ==> response.daemon_cwd@ == path@,
        cwd is None ==> response.daemon_cwd@ == "<unknown>"@,
        marker_is_set ==> response.marker@ == "set"@,
        !marker_is_set ==> response.marker@ == "removed"@,
        has_argument ==> response.argv1@ == "present"@,
        !has_argument ==> response.argv1@ == "empty"@,
{
}

/// A daemon answers every number that has a next one, with its own identity, and
/// goes on answering after each answer that went out where it has no sentinel. A
/// receive that failed ends it with success there.
pub proof fn law_daemon_answers_until_its_parent_is_gone(
    identity: &DaemonIdentity,
    request: TestRequest,
    answered: DaemonStep,
    after: DaemonStep,
    err: ChannelRecvError,
    gone: DaemonStep,
)
    requires
        call_ensures(
            answer_request,
            (identity, false, Ok::<TestRequest, ChannelRecvError>(request)),
            answered,
        ),
        call_ensures(
            run_daemon,
            (identity, false, DaemonEvent::Answered(Ok::<(), ChannelSendError>(()))),
            after,
        ),
        call_ensures(
            answer_request,
            (identity, false, Err::<TestRequest, ChannelRecvError>(err)),
            gone,
        ),
    ensures
        request.v < i32::MAX ==> (answered matches DaemonStep::Answer(Ok(bytes)) && response_in(
            bytes@,
        ) matches Some(r) && r.v == request.v + 1 && r.pid == identity.pid && r.sid == identity.sid
            && r.daemon_cwd == identity.daemon_cwd@ && r.marker == identity.marker@ && r.argv1
            == identity.argv1@),
        request.v == i32::MAX ==> answered is Panic,
        after is NextRequest,
        gone matches DaemonStep::Exit { code, report } && code == 0 && report is None,
{
}

/// A daemon with a sentinel answers once and then outlives its parent: it
/// detaches, and ticks from one on, each tick one more than the last, for good.
/// What fails on the way is reported, and ends it.
pub proof fn law_daemon_with_a_sentinel_ticks_for_good(
    identity: &DaemonIdentity,
    request: TestRequest,
    answered: DaemonStep,
    after_answer: DaemonStep,
    detached: Result<(), DetachStdioError>,
    after_detach: DaemonStep,
    n: u64,
    after_tick: DaemonStep,
    err: ChannelRecvError,
    gone: DaemonStep,
)
    requires
        n < u64::MAX,
        call_ensures(
            answer_request,
            (identity, true, Ok::<TestRequest, ChannelRecvError>(request)),
            answered,
        ),
        call_ensures(
            run_daemon,
            (identity, true, DaemonEvent::Answered(Ok::<(), ChannelSendError>(()))),
            after_answer,
        ),
        call_ensures(run_daemon, (identity, true, DaemonEvent::Detached(detached)), after_detach),
        call_ensures(run_daemon, (identity, true, DaemonEvent::Ticked(n)), after_tick),
        call_ensures(
            answer_request,
            (identity, true, Err::<TestRequest, ChannelRecvError>(err)),
            gone,
        ),
    ensures
        request.v < i32::MAX ==> (answered matches DaemonStep::Answer(Ok(bytes)) && response_in(
            bytes@,
        ) matches Some(r) && r.v == request.v + 1 && r.pid == identity.pid),
        after_answer is Detach,
        detached is Ok ==> after_detach == DaemonStep::Tick(1),
        detached matches Err(e) ==> (after_detach matches DaemonStep::Exit { code, report: Some(text) }
            && code == 1 && ends_with(text@, e.text())),
        after_tick matches DaemonStep::Tick(m) && m == n + 1,
        gone matches DaemonStep::Panic { message } && ends_with(message@, err.debug_text()),
{
    if let Err(e) = detached {
        lemma_ends_of_a_sum("daemon: detach_stdio failed: "@, e.text());
    }
    lemma_ends_of_a_sum("daemon: expected the parent's request: "@, err.debug_text());
}

/// An answer that could not be sent ends a daemon of either kind, with a report
/// of the error; and a daemon of either kind begins by waiting for a request.
pub proof fn law_unsent_answer_ends_the_daemon(
    identity: &DaemonIdentity,
    has_sentinel: bool,
    err: ChannelSendError,
    step: DaemonStep,
    begun: DaemonStep,
)
    requires
        call_ensures(
            run_daemon,
            (identity, has_sentinel, DaemonEvent::Answered(Err::<(), ChannelSendError>(err))),
            step,
        ),
        call_ensures(run_daemon, (identity, has_sentinel, DaemonEvent::Started), begun),
    ensures
        step matches DaemonStep::Panic { message } && ends_with(message@, err.debug_text()),
        begun is NextRequest,
{
    lemma_ends_of_a_sum("daemon: failed to send response: "@, err.debug_text());
}

/// A daemon that is handed bytes does with them what it does with the request in
/// them.
pub proof fn law_bytes_are_answered_as_their_request(
    identity: &DaemonIdentity,
    has_sentinel: bool,
    bytes: Vec<u8>,
    v: i32,
    from_bytes: DaemonStep,
    from_request: DaemonStep,
)
    requires
        number_in(bytes@) == Some(v),
        call_ensures(
            run_daemon,
            (
                identity,
                has_sentinel,
                DaemonEvent::Requested(Ok::<Vec<u8>, ChannelRecvError>(bytes)),
            ),
            from_bytes,
        ),
        call_ensures(
            answer_request,
            (identity, has_sentinel, Ok::<TestRequest, ChannelRecvError>(TestRequest { v })),
            from_request,
        ),
    ensures
        from_bytes@ == from_request@,
{
}

/// A daemon knows what to do after every event, but for the last tick that can be
/// counted.
pub proof fn law_daemon_answers_every_event(
    identity: &DaemonIdentity,
    has_sentinel: bool,
    event: DaemonEvent,
    request: Result<TestRequest, ChannelRecvError>,
)
    ensures
        (event matches DaemonEvent::Ticked(n) ==> n < u64::MAX) ==> call_requires(
            run_daemon,
            (identity, has_sentinel, event),
        ),
        call_requires(answer_request, (identity, has_sentinel, request)),
        request matches Ok(r) ==> r.v < i32::MAX ==> call_requires(respond, (identity, r)),
{
}

} // verus!
