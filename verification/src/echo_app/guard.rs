//! Cleaning up after daemons: waiting for a pid file, and ending a process that
//! may not want to end.

use vstd::prelude::*;

use crate::error::joined;
use crate::text::{
    all_space, chars_of, decimal, i32_value, is_digit, law_numeral_is_read_back,
    law_white_space_around_makes_no_difference, lemma_i32_is_read_back, parse_i32, signed_decimal, signed_decimal_text,
    trim, trimmed,
};
use crate::time::{Moment, TimeSpan};

verus! {

/// How long a process may take to end after it was asked to, in nanoseconds.
pub const GRACE_NANOS: u128 = 2_000_000_000;

/// How many milliseconds lie between two looks at a process that should end.
pub const GUARD_PAUSE_MILLIS: u64 = 20;

/// How many milliseconds lie between two looks at a pid file.
pub const PID_FILE_PAUSE_MILLIS: u64 = 10;

/// What waiting for a pid file does next.
#[derive(Clone, Copy, Debug, PartialEq, Eq, Structural)]
pub enum PidFileStep {
    /// The file holds this pid.
    Found(i32),
    /// The time is up.
    TimedOut,
    /// Pause, and look again.
    Pause,
}

/// Look at a pid file, which `contents` were read from, `now`, in a wait for it
/// that began at `started`. What counts is a pid in it, not that it exists: a
/// file exists before it is written.
pub fn read_pid_file(contents: Option<&str>, started: Moment, now: Moment, timeout: TimeSpan) -> (step:
    PidFileStep)
    ensures
        match contents {
            Some(text) => match i32_value(trimmed(text@)) {
                Some(pid) => step == PidFileStep::Found(pid as i32),
                None => step == (if now.nanos - started.nanos >= timeout.nanos && now.nanos
                    >= started.nanos {
                    PidFileStep::TimedOut
                } else {
                    PidFileStep::Pause
                }),
            },
            None => step == (if now.nanos - started.nanos >= timeout.nanos && now.nanos
                >= started.nanos {
                PidFileStep::TimedOut
            } else {
                PidFileStep::Pause
            }),
        },
{
    match contents {
        Some(text) => {
            let chars = chars_of(text);
            match parse_i32(trim(chars.as_slice())) {
                Some(pid) => {
                    return PidFileStep::Found(pid);
                },
                None => {},
            }
        },
        None => {},
    }
    if now.nanos >= started.nanos && now.nanos - started.nanos >= timeout.nanos {
        PidFileStep::TimedOut
    } else {
        PidFileStep::Pause
    }
}

/// What ending a process does next.
#[derive(Clone, Copy, Debug, PartialEq, Eq, Structural)]
pub enum GuardStep {
    /// Pause, and look again.
    Pause,
    /// Report that the process outlasted its grace period, and kill it; where
    /// `reap` is set, wait for it then.
    Kill { reap: bool },
    /// Nothing more can be done.
    Done,
}

/// Look at a process that was asked to end at `asked`: whether it is still alive
/// `now`. One that outlasts its grace period is killed, and reaped where it is a
/// child.
pub fn guard_drop(alive: bool, is_child: bool, asked: Moment, now: Moment) -> (step: GuardStep)
    ensures
        step == (if !alive {
            GuardStep::Done
        } else if now.nanos >= asked.nanos + GRACE_NANOS {
            GuardStep::Kill { reap: is_child }
        } else {
            GuardStep::Pause
        }),
{
    if !alive {
        GuardStep::Done
    } else if now.nanos >= asked.nanos && now.nanos - asked.nanos >= GRACE_NANOS {
        GuardStep::Kill { reap: is_child }
    } else {
        GuardStep::Pause
    }
}

/// What is reported of a process that outlasted its grace period.
pub fn guard_report(pid: i32) -> (text: String)
    ensures
        text@ == "daemon "@ + signed_decimal(pid as int)
            + " did not exit on SIGTERM within 2s; sending SIGKILL"@,
{
    let mut text = joined("daemon ", signed_decimal_text(pid as i64).as_str());
    text.append(" did not exit on SIGTERM within 2s; sending SIGKILL");
    text
}

/// What making sure that a descriptor is open does next.
#[derive(Clone, Copy, Debug, PartialEq, Eq, Structural)]
pub enum EnsureOpenStep {
    /// Open `/dev/null`.
    Open,
    /// Duplicate `source` onto the descriptor, and close `source`.
    Move { source: i32 },
    /// Whether the descriptor is open.
    Done(bool),
}

/// How the last step of making sure that a descriptor is open went.
#[derive(Clone, Copy, Debug, PartialEq, Eq, Structural)]
pub enum EnsureOpenEvent {
    /// Whether the descriptor is open as it is.
    IsOpen(bool),
    /// `/dev/null` was opened on this descriptor, where that succeeded.
    Opened(Option<i32>),
    /// Whether the duplication succeeded.
    Moved(bool),
}

/// Make sure that `fd` is open, parking `/dev/null` on it where it is not.
pub fn ensure_open(fd: i32, event: EnsureOpenEvent) -> (step: EnsureOpenStep)
    ensures
        step == match event {
            EnsureOpenEvent::IsOpen(open) => if open {
                EnsureOpenStep::Done(true)
            } else {
                EnsureOpenStep::Open
            },
            EnsureOpenEvent::Opened(None) => EnsureOpenStep::Done(false),
            EnsureOpenEvent::Opened(Some(opened)) => if opened == fd {
                EnsureOpenStep::Done(true)
            } else {
                EnsureOpenStep::Move { source: opened }
            },
            EnsureOpenEvent::Moved(moved) => EnsureOpenStep::Done(moved),
        },
{
    match event {
        EnsureOpenEvent::IsOpen(open) => if open {
            EnsureOpenStep::Done(true)
        } else {
            EnsureOpenStep::Open
        },
        EnsureOpenEvent::Opened(None) => EnsureOpenStep::Done(false),
        EnsureOpenEvent::Opened(Some(opened)) => if opened == fd {
            EnsureOpenStep::Done(true)
        } else {
            EnsureOpenStep::Move { source: opened }
        },
        EnsureOpenEvent::Moved(moved) => EnsureOpenStep::Done(moved),
    }
}

/// A pid that was written to its file is found there, with white space around it
/// or without, at any time: whether the wait would be over plays no part in it.
pub proof fn law_written_pid_is_found(
    pid: i32,
    before: Seq<char>,
    after: Seq<char>,
    contents: &str,
    started: Moment,
    now: Moment,
    timeout: TimeSpan,
    step: PidFileStep,
)
    requires
        all_space(before),
        all_space(after),
        contents@ == before + signed_decimal(pid as int) + after,
        call_ensures(read_pid_file, (Some(contents), started, now, timeout), step),
    ensures
        step == PidFileStep::Found(pid),
{
    reveal_strlit("-");
    let magnitude: nat = if pid < 0 {
        (-pid) as nat
    } else {
        pid as nat
    };
    law_numeral_is_read_back(magnitude, 10);
    let text = signed_decimal(pid as int);
    assert(is_digit(decimal(magnitude)[0]));
    assert(is_digit(decimal(magnitude)[decimal(magnitude).len() - 1]));
    assert(text[text.len() - 1] == decimal(magnitude)[decimal(magnitude).len() - 1]);
    law_white_space_around_makes_no_difference(before, text, after);
    lemma_i32_is_read_back(pid);
}

/// Without a pid, a wait for its file goes on until its whole timeout has passed
/// and no longer.
pub proof fn law_pid_file_is_awaited_for_the_whole_timeout(
    started: Moment,
    now: Moment,
    timeout: TimeSpan,
    missing: PidFileStep,
    empty: &str,
    unwritten: PidFileStep,
)
    requires
        started.nanos <= now.nanos,
        empty@.len() == 0,
        call_ensures(read_pid_file, (None::<&str>, started, now, timeout), missing),
        call_ensures(read_pid_file, (Some(empty), started, now, timeout), unwritten),
    ensures
        missing == (if now.nanos >= started.nanos + timeout.nanos {
            PidFileStep::TimedOut
        } else {
            PidFileStep::Pause
        }),
        unwritten == missing,
{
    assert(trimmed(empty@) =~= empty@);
}

/// A process that ends by itself is not killed, and one that does not is left its
/// whole two seconds before it is; a child that is killed is also reaped.
pub proof fn law_process_has_its_whole_grace_period(
    alive: bool,
    is_child: bool,
    asked: Moment,
    now: Moment,
    step: GuardStep,
)
    requires
        call_ensures(guard_drop, (alive, is_child, asked, now), step),
    ensures
        step is Kill <==> alive && now.nanos >= asked.nanos + 2_000_000_000,
        step is Done <==> !alive,
        step matches GuardStep::Kill { reap } ==> reap == is_child,
{
}

/// Making sure that a descriptor is open ends with an open one wherever
/// `/dev/null` can be opened and moved: one that is open is not touched, and one
/// that is not gets `/dev/null`, moved there where it opened elsewhere.
pub proof fn law_descriptor_is_open_in_the_end(
    fd: i32,
    open: bool,
    looked: EnsureOpenStep,
    opened: Option<i32>,
    after_open: EnsureOpenStep,
    moved: bool,
    after_move: EnsureOpenStep,
)
    requires
        call_ensures(ensure_open, (fd, EnsureOpenEvent::IsOpen(open)), looked),
        call_ensures(ensure_open, (fd, EnsureOpenEvent::Opened(opened)), after_open),
        call_ensures(ensure_open, (fd, EnsureOpenEvent::Moved(moved)), after_move),
    ensures
        open ==> looked == EnsureOpenStep::Done(true),
        !open ==> looked == EnsureOpenStep::Open,
        opened is None ==> after_open == EnsureOpenStep::Done(false),
        opened == Some(fd) ==> after_open == EnsureOpenStep::Done(true),
        opened matches Some(other) ==> other != fd ==> (after_open matches EnsureOpenStep::Move {
            source,
        } && source == other),
        after_move == EnsureOpenStep::Done(moved),
{
}

} // verus!
