//! Detaching a daemon's inherited standard streams to `/dev/null`.

use vstd::prelude::*;

use crate::error::{joined, IoError};
use crate::text::{
    begins_with, ends_with, lemma_ends_of_a_sum, signed_decimal, signed_decimal_text,
};

verus! {

/// The highest of the three standard descriptors.
pub const STDERR_FD: i32 = 2;

/// Detaching the daemon's inherited standard streams to `/dev/null` failed.
#[derive(Debug)]
#[non_exhaustive]
pub enum DetachStdioError {
    /// Opening `/dev/null` failed. The inherited streams are untouched.
    OpenDevNull(IoError),
    /// Moving the `/dev/null` descriptor off the standard range failed. The
    /// inherited streams are untouched.
    Relocate(IoError),
    /// Redirecting one of the standard descriptors failed. Those before it were
    /// already redirected.
    Dup2 { target: i32, source: IoError },
}

impl DetachStdioError {
    /// What `message` returns.
    pub open spec fn text(&self) -> Seq<char> {
        match self {
            DetachStdioError::OpenDevNull(err) =>
                "Failed to open /dev/null while detaching daemon stdio: "@ + err.message@,
            DetachStdioError::Relocate(err) =>
                "fcntl(F_DUPFD_CLOEXEC) failed relocating /dev/null off the std-fd range while detaching daemon stdio: "@
                + err.message@,
            DetachStdioError::Dup2 { target, source } => "dup2(/dev/null, "@ + signed_decimal(
                *target as int,
            ) + ") failed while detaching daemon stdio: "@ + source.message@,
        }
    }

    /// The error as a sentence.
    pub fn message(&self) -> (text: String)
        ensures
            text@ == self.text(),
    {
        match self {
            DetachStdioError::OpenDevNull(err) => joined(
                "Failed to open /dev/null while detaching daemon stdio: ",
                err.message.as_str(),
            ),
            DetachStdioError::Relocate(err) => joined(
                "fcntl(F_DUPFD_CLOEXEC) failed relocating /dev/null off the std-fd range while detaching daemon stdio: ",
                err.message.as_str(),
            ),
            DetachStdioError::Dup2 { target, source } => {
                let mut text = joined(
                    "dup2(/dev/null, ",
                    signed_decimal_text(*target as i64).as_str(),
                );
                text.append(") failed while detaching daemon stdio: ");
                text.append(source.message.as_str());
                text
            },
        }
    }
}

/// How the last step of a detach went.
#[derive(Debug)]
pub enum DetachEvent {
    /// The detach begins.
    Started,
    /// `/dev/null` was opened on this descriptor, or could not be.
    Opened(Result<i32, IoError>),
    /// `fd` was duplicated onto this descriptor, or could not be.
    Relocated { fd: i32, relocated: Result<i32, IoError> },
    /// `source` was duplicated onto `target`, or could not be.
    Duplicated { source: i32, target: i32, result: Result<(), IoError> },
}

/// What a detach does next.
#[derive(Debug)]
pub enum DetachStep {
    /// Open `/dev/null` for reading and writing.
    OpenDevNull,
    /// Duplicate `fd` onto the lowest free descriptor that is at least `min`,
    /// closed on exec. `fd` itself is left open: it stays parked on `/dev/null`
    /// until its own redirection replaces it.
    Relocate { fd: i32, min: i32 },
    /// Duplicate `source` onto `target`.
    Duplicate { source: i32, target: i32 },
    /// The detach has succeeded: close `fd`.
    Finish { fd: i32 },
    /// The detach has failed: close `close` where it is given.
    Fail { err: DetachStdioError, close: Option<i32> },
}

/// What a detach does after `event`.
pub open spec fn detach_next(event: DetachEvent) -> DetachStep {
    match event {
        DetachEvent::Started => DetachStep::OpenDevNull,
        DetachEvent::Opened(Err(err)) => DetachStep::Fail {
            err: DetachStdioError::OpenDevNull(err),
            close: None,
        },
        DetachEvent::Opened(Ok(fd)) => if fd <= STDERR_FD {
            DetachStep::Relocate { fd, min: 3 }
        } else {
            DetachStep::Duplicate { source: fd, target: 0 }
        },
        DetachEvent::Relocated { fd, relocated: Err(err) } => DetachStep::Fail {
            err: DetachStdioError::Relocate(err),
            close: Some(fd),
        },
        DetachEvent::Relocated { fd: _, relocated: Ok(new) } => DetachStep::Duplicate {
            source: new,
            target: 0,
        },
        DetachEvent::Duplicated { source, target, result } => match result {
            Err(err) => DetachStep::Fail {
                err: DetachStdioError::Dup2 { target, source: err },
                close: Some(source),
            },
            Ok(_) => if target < STDERR_FD {
                DetachStep::Duplicate { source, target: (target + 1) as i32 }
            } else {
                DetachStep::Finish { fd: source }
            },
        },
    }
}

/// Replace the standard streams by `/dev/null`, step by step. Where a standard
/// descriptor was closed, `/dev/null` opens onto it; duplicating it onto itself
/// would do nothing, and closing it at the end would leave a hole. So it is
/// first moved above the standard range.
pub fn detach_stdio(event: DetachEvent) -> (step: DetachStep)
    requires
        event matches DetachEvent::Duplicated { source, target, result } ==> 0 <= target
            <= STDERR_FD,
    ensures
        step == detach_next(event),
{
    match event {
        DetachEvent::Started => DetachStep::OpenDevNull,
        DetachEvent::Opened(Err(err)) => DetachStep::Fail {
            err: DetachStdioError::OpenDevNull(err),
            close: None,
        },
        DetachEvent::Opened(Ok(fd)) => if fd <= STDERR_FD {
            DetachStep::Relocate { fd, min: STDERR_FD + 1 }
        } else {
            DetachStep::Duplicate { source: fd, target: 0 }
        },
        DetachEvent::Relocated { fd, relocated: Err(err) } => DetachStep::Fail {
            err: DetachStdioError::Relocate(err),
            close: Some(fd),
        },
        DetachEvent::Relocated { fd: _, relocated: Ok(new) } => DetachStep::Duplicate {
            source: new,
            target: 0,
        },
        DetachEvent::Duplicated { source, target, result } => match result {
            Err(err) => DetachStep::Fail {
                err: DetachStdioError::Dup2 { target, source: err },
                close: Some(source),
            },
            Ok(()) => if target < STDERR_FD {
                DetachStep::Duplicate { source, target: target + 1 }
            } else {
                DetachStep::Finish { fd: source }
            },
        },
    }
}

/// A process's descriptors: which open file each of them refers to.
pub type FdTable = Map<i32, int>;

/// Whether `event` is how carrying out `step` can go for a process whose
/// descriptors are `fds`: new descriptors are free ones, and no lower than
/// asked for.
pub open spec fn detach_answers(fds: FdTable, step: DetachStep, event: DetachEvent) -> bool {
    match step {
        DetachStep::OpenDevNull => event matches DetachEvent::Opened(result) && (result matches Ok(
            fd,
        ) ==> fd >= 0 && !fds.dom().contains(fd)),
        DetachStep::Relocate { fd, min } => event matches DetachEvent::Relocated { fd: f, relocated }
            && f == fd && (relocated matches Ok(new) ==> new >= min && !fds.dom().contains(new)),
        DetachStep::Duplicate { source, target } => event matches DetachEvent::Duplicated {
            source: s,
            target: t,
            result,
        } && s == source && t == target,
        DetachStep::Finish { fd } => false,
        DetachStep::Fail { err, close } => false,
    }
}

/// The descriptors after `step` was carried out with the outcome `event`, where
/// `devnull` is the open file that `/dev/null` is.
pub open spec fn fds_after(
    fds: FdTable,
    devnull: int,
    step: DetachStep,
    event: DetachEvent,
) -> FdTable {
    match (step, event) {
        (DetachStep::OpenDevNull, DetachEvent::Opened(Ok(fd))) => fds.insert(fd, devnull),
        (
            DetachStep::Relocate { fd, min },
            DetachEvent::Relocated { fd: _, relocated: Ok(new) },
        ) => fds.insert(new, fds[fd]),
        (
            DetachStep::Duplicate { source, target },
            DetachEvent::Duplicated { source: _, target: _, result: Ok(_) },
        ) => fds.insert(target, fds[source]),
        _ => fds,
    }
}

/// The descriptors once a detach is over and what it closes is closed.
pub open spec fn fds_at_end(fds: FdTable, step: DetachStep) -> FdTable {
    match step {
        DetachStep::Finish { fd } => fds.remove(fd),
        DetachStep::Fail { err, close: Some(fd) } => fds.remove(fd),
        _ => fds,
    }
}

/// Where a detach stands after `events`, and the descriptors by then, for a
/// process that began with `fds`.
pub open spec fn detach_run(fds: FdTable, devnull: int, events: Seq<DetachEvent>) -> (
    DetachStep,
    FdTable,
)
    decreases events.len(),
{
    if events.len() == 0 {
        (detach_next(DetachEvent::Started), fds)
    } else {
        let (step, before) = detach_run(fds, devnull, events.drop_last());
        (detach_next(events.last()), fds_after(before, devnull, step, events.last()))
    }
}

/// Whether `events` can answer the steps of a detach one after the other, for a
/// process that began with `fds`.
pub open spec fn detach_trace(fds: FdTable, devnull: int, events: Seq<DetachEvent>) -> bool
    decreases events.len(),
{
    events.len() == 0 || {
        &&& detach_trace(fds, devnull, events.drop_last())
        &&& ({
            let (step, before) = detach_run(fds, devnull, events.drop_last());
            detach_answers(before, step, events.last())
        })
    }
}

/// Whether the descriptors that a caller does not know as standard ones are
/// those of `fds`, but for `extra`.
pub open spec fn same_above(fds: FdTable, now: FdTable, extra: Option<i32>) -> bool {
    forall|fd: i32|
        fd > STDERR_FD && Some(fd) != extra ==> {
            &&& #[trigger] now.dom().contains(fd) == fds.dom().contains(fd)
            &&& now.dom().contains(fd) ==> now[fd] == fds[fd]
        }
}

/// What is true of the descriptors at a step of a detach.
pub open spec fn detach_accounts_for(
    fds: FdTable,
    devnull: int,
    step: DetachStep,
    now: FdTable,
) -> bool {
    match step {
        DetachStep::OpenDevNull => now == fds,
        DetachStep::Relocate { fd, min } => {
            &&& 0 <= fd <= STDERR_FD
            &&& min == 3
            &&& now == fds.insert(fd, devnull)
            &&& !fds.dom().contains(fd)
        },
        DetachStep::Duplicate { source, target } => {
            &&& source > STDERR_FD
            &&& !fds.dom().contains(source)
            &&& now.dom().contains(source) && now[source] == devnull
            &&& 0 <= target <= STDERR_FD
            &&& forall|t: i32|
                0 <= t < target ==> #[trigger] now.dom().contains(t) && now[t] == devnull
            &&& forall|t: i32|
                t <= STDERR_FD && fds.dom().contains(t) ==> #[trigger] now.dom().contains(t)
            &&& same_above(fds, now, Some(source))
        },
        DetachStep::Finish { fd } => {
            &&& fd > STDERR_FD
            &&& !fds.dom().contains(fd)
            &&& forall|t: i32|
                0 <= t <= STDERR_FD ==> #[trigger] now.dom().contains(t) && now[t] == devnull
            &&& same_above(fds, now, Some(fd))
        },
        DetachStep::Fail { err, close } => match err {
            DetachStdioError::OpenDevNull(_) => close is None && now == fds,
            DetachStdioError::Relocate(_) => close matches Some(fd) && !fds.dom().contains(fd)
                && now == fds.insert(fd, devnull),
            DetachStdioError::Dup2 { target, source } => {
                &&& close matches Some(fd) && fd > STDERR_FD && !fds.dom().contains(fd)
                &&& 0 <= target <= STDERR_FD
                &&& forall|t: i32|
                    0 <= t < target ==> #[trigger] now.dom().contains(t) && now[t] == devnull
                &&& forall|t: i32|
                    t <= STDERR_FD && fds.dom().contains(t) ==> #[trigger] now.dom().contains(t)
                &&& same_above(fds, now, close)
            },
        },
    }
}

proof fn lemma_detach_accounts_for(fds: FdTable, devnull: int, events: Seq<DetachEvent>)
    requires
        detach_trace(fds, devnull, events),
        forall|fd: i32| #[trigger] fds.dom().contains(fd) ==> fd >= 0,
    ensures
        detach_accounts_for(
            fds,
            devnull,
            detach_run(fds, devnull, events).0,
            detach_run(fds, devnull, events).1,
        ),
    decreases events.len(),
{
    if events.len() > 0 {
        lemma_detach_accounts_for(fds, devnull, events.drop_last());
    }
}

/// A detach that succeeds leaves all three standard descriptors open on
/// `/dev/null`, whichever of them were closed before, and leaves every other
/// descriptor of the process as it was: nothing is leaked and nothing else is
/// closed.
pub proof fn law_detach_redirects_every_standard_stream(
    fds: FdTable,
    devnull: int,
    events: Seq<DetachEvent>,
)
    requires
        detach_trace(fds, devnull, events),
        forall|fd: i32| #[trigger] fds.dom().contains(fd) ==> fd >= 0,
        detach_run(fds, devnull, events).0 is Finish,
    ensures
        ({
            let (step, now) = detach_run(fds, devnull, events);
            let end = fds_at_end(now, step);
            &&& forall|t: i32|
                0 <= t <= STDERR_FD ==> #[trigger] end.dom().contains(t) && end[t] == devnull
            &&& same_above(fds, end, None)
        }),
{
    lemma_detach_accounts_for(fds, devnull, events);
}

/// A detach that fails closes no descriptor that was open. Where `/dev/null`
/// could not be opened or moved, the descriptors are what they were, and where a
/// redirection failed, those before its target are on `/dev/null`. Above the
/// standard range nothing has changed.
pub proof fn law_failed_detach_leaves_no_new_hole(
    fds: FdTable,
    devnull: int,
    events: Seq<DetachEvent>,
)
    requires
        detach_trace(fds, devnull, events),
        forall|fd: i32| #[trigger] fds.dom().contains(fd) ==> fd >= 0,
        detach_run(fds, devnull, events).0 is Fail,
    ensures
        ({
            let (step, now) = detach_run(fds, devnull, events);
            let end = fds_at_end(now, step);
            &&& same_above(fds, end, None)
            &&& forall|t: i32| fds.dom().contains(t) ==> #[trigger] end.dom().contains(t)
            &&& match step->Fail_err {
                DetachStdioError::Dup2 { target, source } => forall|t: i32|
                    0 <= t < target ==> #[trigger] end.dom().contains(t) && end[t] == devnull,
                _ => end == fds,
            }
        }),
{
    lemma_detach_accounts_for(fds, devnull, events);
    let (step, now) = detach_run(fds, devnull, events);
    if step->Fail_err is Relocate {
        assert(fds_at_end(now, step) =~= fds);
    }
}

/// A detach fails where its last step failed and nowhere else, with that error,
/// and closes what it has opened; it succeeds with the redirection of the last
/// standard stream and with nothing else.
pub proof fn law_detach_fails_only_on_a_failure(event: DetachEvent, step: DetachStep)
    requires
        event matches DetachEvent::Duplicated { source, target, result } ==> 0 <= target
            <= STDERR_FD,
        call_ensures(detach_stdio, (event,), step),
    ensures
        step is Fail <==> {
            ||| event matches DetachEvent::Opened(Err(_))
            ||| event matches DetachEvent::Relocated { fd: _, relocated: Err(_) }
            ||| event matches DetachEvent::Duplicated { source: _, target: _, result: Err(_) }
        },
        step is Finish <==> (event matches DetachEvent::Duplicated { source: _, target, result: Ok(_) }
            && target == 2),
        event matches DetachEvent::Opened(Err(e)) ==> step == (DetachStep::Fail {
            err: DetachStdioError::OpenDevNull(e),
            close: None,
        }),
        event matches DetachEvent::Relocated { fd, relocated: Err(e) } ==> step
            == (DetachStep::Fail { err: DetachStdioError::Relocate(e), close: Some(fd) }),
        event matches DetachEvent::Duplicated { source, target, result: Err(e) } ==> step
            == (DetachStep::Fail {
            err: DetachStdioError::Dup2 { target, source: e },
            close: Some(source),
        }),
        event is Started ==> step is OpenDevNull,
{
}

proof fn lemma_detach_shape(fds: FdTable, devnull: int, events: Seq<DetachEvent>)
    requires
        detach_trace(fds, devnull, events),
    ensures
        events.len() <= 5,
        events.len() > 0 ==> events[0] is Opened,
        events.len() > 1 ==> (events[0] matches DetachEvent::Opened(Ok(fd)) && (if fd <= 2 {
            events[1] is Relocated
        } else {
            events.len() <= 4 && events[1] is Duplicated && events[1]->target == 0
        })),
        events.len() > 2 ==> (events[0] matches DetachEvent::Opened(Ok(fd)) && events[2] is Duplicated
            && events[2]->target == (if fd <= 2 {
            0int
        } else {
            1int
        })),
        events.len() > 3 ==> (events[0] matches DetachEvent::Opened(Ok(fd)) && events[3] is Duplicated
            && events[3]->target == (if fd <= 2 {
            1int
        } else {
            2int
        })),
        events.len() > 4 ==> events[4] is Duplicated && events[4]->target == 2,
    decreases events.len(),
{
    if events.len() > 0 {
        let earlier = events.drop_last();
        lemma_detach_shape(fds, devnull, earlier);
        assert(forall|i: int| 0 <= i < earlier.len() ==> earlier[i] == events[i]);
        assert(events.last() == events[events.len() - 1]);
        if earlier.len() > 0 {
            assert(earlier.last() == events[earlier.len() - 1]);
            assert(detach_run(fds, devnull, earlier).0 == detach_next(earlier.last()));
        }
    }
}

/// A detach gets to its end: it takes at most five steps, four where `/dev/null`
/// opens above the standard streams, and when all of them have been carried out
/// without an error it has succeeded.
pub proof fn law_detach_gets_through(fds: FdTable, devnull: int, events: Seq<DetachEvent>, fd: i32)
    requires
        detach_trace(fds, devnull, events),
        events.len() > 0,
        events[0] == DetachEvent::Opened(Ok(fd)),
        events.len() >= (if fd <= 2 {
            5int
        } else {
            4int
        }),
        !(detach_run(fds, devnull, events).0 is Fail),
    ensures
        detach_run(fds, devnull, events).0 is Finish,
        events.len() == (if fd <= 2 {
            5int
        } else {
            4int
        }),
{
    lemma_detach_shape(fds, devnull, events);
    assert(events.last() == events[events.len() - 1]);
}

/// The sentence about a failed detach ends with the text of the error below it,
/// and names the stream that could not be redirected.
pub proof fn law_detach_error_says_what_failed(err: &DetachStdioError, text: String)
    requires
        call_ensures(DetachStdioError::message, (err,), text),
    ensures
        err matches DetachStdioError::OpenDevNull(e) ==> ends_with(text@, e.message@),
        err matches DetachStdioError::Relocate(e) ==> ends_with(text@, e.message@),
        err matches DetachStdioError::Dup2 { target, source } ==> ends_with(text@, source.message@)
            && begins_with(text@, "dup2(/dev/null, "@ + signed_decimal(*target as int)),
{
    match err {
        DetachStdioError::OpenDevNull(e) => {
            lemma_ends_of_a_sum(
                "Failed to open /dev/null while detaching daemon stdio: "@,
                e.message@,
            );
        },
        DetachStdioError::Relocate(e) => {
            lemma_ends_of_a_sum(
                "fcntl(F_DUPFD_CLOEXEC) failed relocating /dev/null off the std-fd range while detaching daemon stdio: "@,
                e.message@,
            );
        },
        DetachStdioError::Dup2 { target, source } => {
            let head = "dup2(/dev/null, "@ + signed_decimal(*target as int);
            let middle = ") failed while detaching daemon stdio: "@;
            lemma_ends_of_a_sum(head + middle, source.message@);
            assert(text@ =~= head + (middle + source.message@));
            lemma_ends_of_a_sum(head, middle + source.message@);
        },
    }
}

/// A detach knows what to do after every event about a standard descriptor.
pub proof fn law_detach_answers_every_event(event: DetachEvent)
    requires
        event matches DetachEvent::Duplicated { source, target, result } ==> 0 <= target <= 2,
    ensures
        call_requires(detach_stdio, (event,)),
{
}

} // verus!
