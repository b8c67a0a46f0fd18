//! The daemon's one-time claim of the channel descriptor that it inherited.

use vstd::prelude::*;

use crate::error::{InheritedFdError, IoError};
use crate::spawn::token::DAEMON_CHANNEL_FD;

verus! {

/// The bits of a file mode that hold the file's type.
pub const S_IFMT: u32 = 0o170000;

/// The file type of a socket.
pub const S_IFSOCK: u32 = 0o140000;

/// The descriptor flag that closes a descriptor on `execve`.
pub const FD_CLOEXEC: i32 = 1;

/// Whether the channel descriptor has been claimed in this process. A claim is
/// for good, and an attempt that fails afterwards does not undo it.
#[derive(Debug)]
pub struct ClaimGuard {
    claimed: bool,
}

impl ClaimGuard {
    /// Whether a claim has been made.
    pub closed spec fn claimed(&self) -> bool {
        self.claimed
    }

    /// A guard on which `claimed` tells whether a claim has been made.
    pub fn new(claimed: bool) -> (guard: ClaimGuard)
        ensures
            guard.claimed() == claimed,
    {
        ClaimGuard { claimed }
    }

    /// Whether a claim has been made.
    pub fn is_claimed(&self) -> (claimed: bool)
        ensures
            claimed == self.claimed(),
    {
        self.claimed
    }
}

/// Where a claim stands.
#[derive(Debug)]
pub enum ClaimStep {
    /// Ask for the file mode of the descriptor, without taking ownership of it.
    Stat,
    /// Take ownership of the descriptor, and read its descriptor flags.
    AdoptAndGetFlags,
    /// Set these descriptor flags.
    SetFlags(i32),
    /// Clone the descriptor for the two halves of the channel.
    Clone,
    /// The claim is over. Where it failed, a descriptor that was adopted is
    /// closed.
    Done(Result<(), InheritedFdError>),
}

/// Begin to claim the channel descriptor. The guard is set before anything is
/// checked and is never cleared, so a second claim is refused without touching
/// any descriptor.
pub fn rpc_server_from_inherited_fds(guard: &mut ClaimGuard) -> (step: ClaimStep)
    ensures
        final(guard).claimed(),
        old(guard).claimed() ==> step == ClaimStep::Done(
            Err(InheritedFdError::AlreadyClaimed { channel_fd: DAEMON_CHANNEL_FD }),
        ),
        !old(guard).claimed() ==> step == ClaimStep::Stat,
{
    if guard.claimed {
        return ClaimStep::Done(
            Err(InheritedFdError::AlreadyClaimed { channel_fd: DAEMON_CHANNEL_FD }),
        );
    }
    guard.claimed = true;
    ClaimStep::Stat
}

/// Check that the descriptor is open and a socket, given its file mode.
pub fn validate_inherited_fds(st_mode: Result<u32, IoError>) -> (verdict: Result<
    (),
    InheritedFdError,
>)
    ensures
        verdict is Ok <==> (st_mode matches Ok(mode) && mode & S_IFMT == S_IFSOCK),
        st_mode matches Err(source) ==> verdict == Err::<(), InheritedFdError>(
            InheritedFdError::NotOpen { fd: DAEMON_CHANNEL_FD, source },
        ),
        st_mode matches Ok(mode) ==> mode & S_IFMT != S_IFSOCK ==> verdict == Err::<
            (),
            InheritedFdError,
        >(InheritedFdError::NotASocket { fd: DAEMON_CHANNEL_FD, st_mode: mode }),
{
    match st_mode {
        Err(source) => Err(InheritedFdError::NotOpen { fd: DAEMON_CHANNEL_FD, source }),
        Ok(mode) => if mode & S_IFMT != S_IFSOCK {
            Err(InheritedFdError::NotASocket { fd: DAEMON_CHANNEL_FD, st_mode: mode })
        } else {
            Ok(())
        },
    }
}

/// The descriptor flags with close-on-exec set and the others kept.
pub fn set_cloexec(flags: i32) -> (with_cloexec: i32)
    ensures
        with_cloexec == flags | FD_CLOEXEC,
        with_cloexec & FD_CLOEXEC == FD_CLOEXEC,
        forall|bit: i32| #[trigger]
            (bit & FD_CLOEXEC) == 0 ==> with_cloexec & bit == flags & bit,
{
    let with_cloexec: i32 = flags | FD_CLOEXEC;
    proof {
        assert((flags | 1i32) & 1i32 == 1i32) by (bit_vector);
        assert forall|bit: i32| #[trigger] (bit & FD_CLOEXEC) == 0 implies with_cloexec & bit
            == flags & bit by {
            assert(bit & 1i32 == 0i32 ==> (flags | 1i32) & bit == flags & bit) by (bit_vector);
        }
    }
    with_cloexec
}

/// The step after the file mode is known.
pub fn claim_after_stat(st_mode: Result<u32, IoError>) -> (step: ClaimStep)
    ensures
        step == claim_next(ClaimEvent::Stat(st_mode)),
{
    match validate_inherited_fds(st_mode) {
        Ok(()) => ClaimStep::AdoptAndGetFlags,
        Err(err) => ClaimStep::Done(Err(err)),
    }
}

/// The step after the descriptor flags are known.
pub fn claim_after_get_flags(flags: Result<i32, IoError>) -> (step: ClaimStep)
    ensures
        step == claim_next(ClaimEvent::GetFlags(flags)),
{
    match flags {
        Ok(flags) => ClaimStep::SetFlags(set_cloexec(flags)),
        Err(source) => ClaimStep::Done(
            Err(
                InheritedFdError::SetCloexec {
                    fd: DAEMON_CHANNEL_FD,
                    operation: "F_GETFD",
                    source,
                },
            ),
        ),
    }
}

/// The step after the descriptor flags were set.
pub fn claim_after_set_flags(set: Result<(), IoError>) -> (step: ClaimStep)
    ensures
        step == claim_next(ClaimEvent::SetFlags(set)),
{
    match set {
        Ok(()) => ClaimStep::Clone,
        Err(source) => ClaimStep::Done(
            Err(
                InheritedFdError::SetCloexec {
                    fd: DAEMON_CHANNEL_FD,
                    operation: "F_SETFD",
                    source,
                },
            ),
        ),
    }
}

/// The step after the descriptor was cloned.
pub fn claim_after_clone(cloned: Result<(), IoError>) -> (step: ClaimStep)
    ensures
        step == claim_next(ClaimEvent::Clone(cloned)),
{
    match cloned {
        Ok(()) => ClaimStep::Done(Ok(())),
        Err(source) => ClaimStep::Done(Err(InheritedFdError::CloneFd { source })),
    }
}

/// How one step of a claim went.
pub enum ClaimEvent {
    /// The file mode of the descriptor.
    Stat(Result<u32, IoError>),
    /// The descriptor flags.
    GetFlags(Result<i32, IoError>),
    /// How setting the descriptor flags went.
    SetFlags(Result<(), IoError>),
    /// How cloning the descriptor went.
    Clone(Result<(), IoError>),
}

/// What a claim does after `event`.
pub open spec fn claim_next(event: ClaimEvent) -> ClaimStep {
    match event {
        ClaimEvent::Stat(Err(source)) => ClaimStep::Done(
            Err(InheritedFdError::NotOpen { fd: DAEMON_CHANNEL_FD, source }),
        ),
        ClaimEvent::Stat(Ok(mode)) => if mode & S_IFMT == S_IFSOCK {
            ClaimStep::AdoptAndGetFlags
        } else {
            ClaimStep::Done(
                Err(InheritedFdError::NotASocket { fd: DAEMON_CHANNEL_FD, st_mode: mode }),
            )
        },
        ClaimEvent::GetFlags(Ok(flags)) => ClaimStep::SetFlags(flags | FD_CLOEXEC),
        ClaimEvent::GetFlags(Err(source)) => ClaimStep::Done(
            Err(
                InheritedFdError::SetCloexec {
                    fd: DAEMON_CHANNEL_FD,
                    operation: "F_GETFD",
                    source,
                },
            ),
        ),
        ClaimEvent::SetFlags(Ok(_)) => ClaimStep::Clone,
        ClaimEvent::SetFlags(Err(source)) => ClaimStep::Done(
            Err(
                InheritedFdError::SetCloexec {
                    fd: DAEMON_CHANNEL_FD,
                    operation: "F_SETFD",
                    source,
                },
            ),
        ),
        ClaimEvent::Clone(Ok(_)) => ClaimStep::Done(Ok(())),
        ClaimEvent::Clone(Err(source)) => ClaimStep::Done(
            Err(InheritedFdError::CloneFd { source }),
        ),
    }
}

/// Whether `event` answers what a claim was told to do.
pub open spec fn answers_claim(step: ClaimStep, event: ClaimEvent) -> bool {
    match step {
        ClaimStep::Stat => event is Stat,
        ClaimStep::AdoptAndGetFlags => event is GetFlags,
        ClaimStep::SetFlags(_) => event is SetFlags,
        ClaimStep::Clone => event is Clone,
        ClaimStep::Done(_) => false,
    }
}

/// Whether `events` is a run of the first claim in a process.
pub open spec fn claim_trace(events: Seq<ClaimEvent>) -> bool {
    &&& events.len() > 0
    &&& answers_claim(ClaimStep::Stat, events[0])
    &&& forall|i: int|
        0 < i < events.len() ==> answers_claim(claim_next(events[i - 1]), #[trigger] events[i])
}

/// A claim that succeeds has found an open socket, has set close-on-exec on it
/// with its other flags kept, and has cloned it only after that: both halves of
/// the channel are closed on exec, so no process that the daemon starts later
/// inherits an end of it.
pub proof fn law_claimed_channel_is_closed_on_exec(events: Seq<ClaimEvent>)
    requires
        claim_trace(events),
        claim_next(events.last()) == ClaimStep::Done(Ok::<(), InheritedFdError>(())),
    ensures
        events.len() == 4,
        events[0] matches ClaimEvent::Stat(Ok(mode)) && mode & S_IFMT == S_IFSOCK,
        events[1] matches ClaimEvent::GetFlags(Ok(flags)) && claim_next(events[1])
            == ClaimStep::SetFlags(flags | FD_CLOEXEC) && (flags | FD_CLOEXEC) & FD_CLOEXEC
            == FD_CLOEXEC,
        events[2] matches ClaimEvent::SetFlags(Ok(_)),
        events[3] matches ClaimEvent::Clone(Ok(_)),
{
    if events.len() > 1 {
        assert(answers_claim(claim_next(events[0]), events[1]));
    }
    if events.len() > 2 {
        assert(answers_claim(claim_next(events[1]), events[2]));
    }
    if events.len() > 3 {
        assert(answers_claim(claim_next(events[2]), events[3]));
    }
    if events.len() > 4 {
        assert(answers_claim(claim_next(events[3]), events[4]));
    }
    if let ClaimEvent::GetFlags(Ok(flags)) = events[1] {
        assert((flags | 1i32) & 1i32 == 1i32) by (bit_vector);
    }
}

/// A socket can be claimed: a run on a descriptor that is an open socket, and on
/// which every further step succeeds, succeeds, whatever else its mode and flags
/// say.
pub proof fn law_socket_can_be_claimed(events: Seq<ClaimEvent>, mode: u32, flags: i32)
    requires
        mode & S_IFMT == S_IFSOCK,
        events == seq![
            ClaimEvent::Stat(Ok(mode)),
            ClaimEvent::GetFlags(Ok(flags)),
            ClaimEvent::SetFlags(Ok(())),
            ClaimEvent::Clone(Ok(())),
        ],
    ensures
        claim_trace(events),
        claim_next(events.last()) == ClaimStep::Done(Ok::<(), InheritedFdError>(())),
{
    assert forall|i: int| 0 < i < events.len() implies answers_claim(
        claim_next(events[i - 1]),
        #[trigger] events[i],
    ) by {
        assert(i == 1 || i == 2 || i == 3);
    }
}

/// A claim fails where its last step failed or showed something that is no
/// socket, and nowhere else; the error carries the failure. The flags that are
/// set are those that were read, with close-on-exec among them.
pub proof fn law_claim_fails_only_on_a_failure(
    st_mode: Result<u32, IoError>,
    after_stat: ClaimStep,
    flags: Result<i32, IoError>,
    after_get: ClaimStep,
    set: Result<(), IoError>,
    after_set: ClaimStep,
    cloned: Result<(), IoError>,
    after_clone: ClaimStep,
    bit: i32,
)
    requires
        call_ensures(claim_after_stat, (st_mode,), after_stat),
        call_ensures(claim_after_get_flags, (flags,), after_get),
        call_ensures(claim_after_set_flags, (set,), after_set),
        call_ensures(claim_after_clone, (cloned,), after_clone),
        bit & FD_CLOEXEC == 0,
    ensures
        after_stat is AdoptAndGetFlags <==> (st_mode matches Ok(mode) && mode & S_IFMT == S_IFSOCK),
        st_mode matches Err(err) ==> (after_stat matches ClaimStep::Done(
            Err(InheritedFdError::NotOpen { fd, source }),
        ) && fd == 3 && source == err),
        st_mode matches Ok(mode) ==> mode & S_IFMT != S_IFSOCK ==> (after_stat matches
            ClaimStep::Done(Err(InheritedFdError::NotASocket { fd, st_mode: m })) && fd == 3 && m
            == mode),
        flags matches Ok(read) ==> (after_get matches ClaimStep::SetFlags(new) && new & FD_CLOEXEC
            == FD_CLOEXEC && new & bit == read & bit),
        flags matches Err(err) ==> (after_get matches ClaimStep::Done(
            Err(InheritedFdError::SetCloexec { fd, operation, source }),
        ) && fd == 3 && operation@ == "F_GETFD"@ && source == err),
        after_set is Clone <==> set is Ok,
        set matches Err(err) ==> (after_set matches ClaimStep::Done(
            Err(InheritedFdError::SetCloexec { fd, operation, source }),
        ) && fd == 3 && operation@ == "F_SETFD"@ && source == err),
        after_clone == ClaimStep::Done(Ok::<(), InheritedFdError>(())) <==> cloned is Ok,
        cloned matches Err(err) ==> (after_clone matches ClaimStep::Done(
            Err(InheritedFdError::CloneFd { source }),
        ) && source == err),
{
    if let Ok(read) = flags {
        assert((read | 1i32) & 1i32 == 1i32) by (bit_vector);
        assert(bit & 1i32 == 0i32 ==> (read | 1i32) & bit == read & bit) by (bit_vector);
    }
}

/// The descriptor can be claimed once: of two claims one after the other the
/// second is refused without touching it, and the first in a process goes on.
pub proof fn law_channel_is_claimed_once_only(
    guard: &mut ClaimGuard,
    first: ClaimStep,
    later: &mut ClaimGuard,
    second: ClaimStep,
)
    requires
        call_ensures(rpc_server_from_inherited_fds, (guard,), first),
        call_ensures(rpc_server_from_inherited_fds, (later,), second),
        *old(later) == *final(guard),
    ensures
        !old(guard).claimed() ==> first is Stat,
        second matches ClaimStep::Done(Err(InheritedFdError::AlreadyClaimed { channel_fd }))
            && channel_fd == 3,
{
}

/// A claim knows what to do after every outcome of its steps.
pub proof fn law_claim_answers_every_outcome(
    guard: &mut ClaimGuard,
    st_mode: Result<u32, IoError>,
    flags: Result<i32, IoError>,
    done: Result<(), IoError>,
)
    ensures
        call_requires(rpc_server_from_inherited_fds, (guard,)),
        call_requires(validate_inherited_fds, (st_mode,)),
        call_requires(claim_after_stat, (st_mode,)),
        call_requires(claim_after_get_flags, (flags,)),
        call_requires(claim_after_set_flags, (done,)),
        call_requires(claim_after_clone, (done,)),
{
}

} // verus!
