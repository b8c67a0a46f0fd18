//! The parent's side of a spawn: which binary to re-exec, in which order the
//! channel, the tokens and the child come into being, and how the spawn is
//! completed or cleaned up.

use vstd::prelude::*;

use crate::error::{
    joined, ChannelCreateError, ChannelRecvError, HandshakeError, IoError, IoErrorKind,
    SpawnDaemonError,
};
use crate::spawn::handshake::{is_verdict, validate_handshake_and_build_client};
use crate::spawn::token::{
    arm_of, law_prequeued_tokens_route_both_stages, prequeued_tokens, token, StageDispatch,
    DAEMON_CHANNEL_FD, TOKEN_STAGE1, TOKEN_STAGE2,
};
use crate::text::{begins_with, bytes_begin_with};

verus! {

/// The kernel's link to the image that this process was loaded from: the bytes
/// of `/proc/self/exe`.
pub const PROC_SELF_EXE: [u8; 14] = [
    0x2f, 0x70, 0x72, 0x6f, 0x63, 0x2f, 0x73, 0x65, 0x6c, 0x66, 0x2f, 0x65, 0x78, 0x65,
];

/// What the exec-time path begins with where the image was executed by
/// descriptor: the bytes of `/dev/fd/`.
pub const DEV_FD_PREFIX: [u8; 8] = [0x2f, 0x64, 0x65, 0x76, 0x2f, 0x66, 0x64, 0x2f];

/// What the system says about the running image.
#[derive(Debug)]
pub struct ExeProbe {
    /// Whether the link `/proc/self/exe` can be read.
    pub proc_self_exe_readable: bool,
    /// Whether the process runs under secure execution (`AT_SECURE`).
    pub secure_execution: bool,
    /// The path that the kernel recorded at exec time (`AT_EXECFN`), where the
    /// entry is present.
    pub execfn: Option<Vec<u8>>,
    /// The first argument, where there is one.
    pub argv0: Option<Vec<u8>>,
}

/// Why no path to re-exec was found.
pub enum ExeRefusal {
    /// Only paths that the invoker controls are left, and the process is
    /// privileged.
    SecureExecution,
    /// No source yielded a path.
    NoPath,
}

/// Bytes that may be absent, as a sequence.
pub open spec fn opt_view(bytes: Option<Vec<u8>>) -> Option<Seq<u8>> {
    match bytes {
        Some(bytes) => Some(bytes@),
        None => None,
    }
}

/// The exec-time path, where it can be used: it is not empty, and does not need
/// `/proc` to resolve.
pub open spec fn usable_execfn(execfn: Option<Seq<u8>>) -> Option<Seq<u8>> {
    match execfn {
        Some(path) => if path.len() == 0 || begins_with(path, DEV_FD_PREFIX@) {
            None
        } else {
            Some(path)
        },
        None => None,
    }
}

/// The path to re-exec.
pub open spec fn exe_path(probe: ExeProbe) -> Result<Seq<u8>, ExeRefusal> {
    if probe.proc_self_exe_readable {
        Ok(PROC_SELF_EXE@)
    } else if probe.secure_execution {
        Err(ExeRefusal::SecureExecution)
    } else {
        match usable_execfn(opt_view(probe.execfn)) {
            Some(path) => Ok(path),
            None => match opt_view(probe.argv0) {
                Some(argv0) => if argv0.len() > 0 {
                    Ok(argv0)
                } else {
                    Err(ExeRefusal::NoPath)
                },
                None => Err(ExeRefusal::NoPath),
            },
        }
    }
}

/// The debug output of an I/O error that this library makes: the name of its
/// kind, and its text.
pub open spec fn refusal_debug(kind: Seq<char>, message: Seq<char>) -> Seq<char> {
    "Custom { kind: "@ + kind + ", error: \""@ + message + "\" }"@
}

/// An I/O error of this kind, whose name is `name`, with this text.
fn refusal_error(kind: IoErrorKind, name: &str, message: &str) -> (err: SpawnDaemonError)
    ensures
        err matches SpawnDaemonError::ExePath(io) && io.kind == kind && io.raw_os_error is None
            && io.message@ == message@ && io.debug@ == refusal_debug(name@, message@),
{
    let mut debug = joined("Custom { kind: ", name);
    debug.append(", error: \"");
    debug.append(message);
    debug.append("\" }");
    SpawnDaemonError::ExePath(
        IoError { kind, raw_os_error: None, message: message.to_string(), debug },
    )
}

/// Whether `err` reports the refusal: by its kind, and by its texts.
pub open spec fn reports(err: SpawnDaemonError, refusal: ExeRefusal) -> bool {
    err matches SpawnDaemonError::ExePath(io) && io.raw_os_error is None && match refusal {
        ExeRefusal::SecureExecution => {
            &&& io.kind == IoErrorKind::PermissionDenied
            &&& io.message@
                == "/proc is not mounted and this is a secure-execution (setuid/setgid) process; refusing to re-exec via the invoker-controlled AT_EXECFN / argv[0] fallback"@
            &&& io.debug@ == refusal_debug("PermissionDenied"@, io.message@)
        },
        ExeRefusal::NoPath => {
            &&& io.kind == IoErrorKind::NotFound
            &&& io.message@
                == "/proc is not mounted and neither AT_EXECFN nor argv[0] yielded an executable path to re-exec"@
            &&& io.debug@ == refusal_debug("NotFound"@, io.message@)
        },
    }
}

/// The exec-time path, where it can be used.
pub fn exe_path_from_auxv(execfn: Option<Vec<u8>>) -> (path: Option<Vec<u8>>)
    ensures
        opt_view(path) == usable_execfn(opt_view(execfn)),
{
    let bytes = match execfn {
        Some(bytes) => bytes,
        None => {
            return None;
        },
    };
    if bytes.len() == 0 {
        return None;
    }
    let by_descriptor = DEV_FD_PREFIX;
    if bytes_begin_with(bytes.as_slice(), by_descriptor.as_slice()) {
        return None;
    }
    Some(bytes)
}

/// Resolve the path to re-exec. The kernel's link is preferred, by its literal
/// name, because it leads to the very image that is running even where the file
/// was replaced. Without `/proc` the exec-time path is tried and then the first
/// argument; a privileged process tries neither, because its invoker picks both.
pub fn linux_daemon_exe_path(probe: ExeProbe) -> (path: Result<Vec<u8>, SpawnDaemonError>)
    ensures
        match exe_path(probe) {
            Ok(exe) => path matches Ok(bytes) && bytes@ == exe,
            Err(refusal) => path matches Err(err) && reports(err, refusal),
        },
{
    if probe.proc_self_exe_readable {
        let link = PROC_SELF_EXE;
        return Ok(vstd::slice::slice_to_vec(link.as_slice()));
    }
    if probe.secure_execution {
        return Err(
            refusal_error(
                IoErrorKind::PermissionDenied,
                "PermissionDenied",
                "/proc is not mounted and this is a secure-execution (setuid/setgid) process; refusing to re-exec via the invoker-controlled AT_EXECFN / argv[0] fallback",
            ),
        );
    }
    match exe_path_from_auxv(probe.execfn) {
        Some(path) => {
            return Ok(path);
        },
        None => {},
    }
    match probe.argv0 {
        Some(argv0) => if argv0.len() > 0 {
            return Ok(argv0);
        },
        None => {},
    }
    Err(
        refusal_error(
            IoErrorKind::NotFound,
            "NotFound",
            "/proc is not mounted and neither AT_EXECFN nor argv[0] yielded an executable path to re-exec",
        ),
    )
}

/// A privileged process never re-execs a path that its invoker controls: under
/// secure execution the only path there can be is the kernel's link, whatever
/// the exec-time path and the first argument are.
pub proof fn law_secure_execution_ignores_the_invoker(probe: ExeProbe)
    requires
        probe.secure_execution,
    ensures
        exe_path(probe) is Ok ==> exe_path(probe) == Ok::<Seq<u8>, ExeRefusal>(PROC_SELF_EXE@),
        exe_path(probe) is Ok <==> probe.proc_self_exe_readable,
{
}

/// What to spawn.
#[derive(Debug)]
pub struct SpawnRequest {
    /// The path to exec.
    pub exe: Vec<u8>,
    /// What the child sees as its first argument, where it is not the path.
    pub argv0: Option<Vec<u8>>,
    /// The child's further arguments.
    pub args: Vec<Vec<u8>>,
    /// Environment variables to set for the child.
    pub extra_env: Vec<(Vec<u8>, Vec<u8>)>,
    /// Bytes to queue in the channel, unframed, before the child exists.
    pub prequeue: Option<Vec<u8>>,
}

/// What to spawn in order to run `exe` as a daemon: the path under the name of
/// the running executable where that is known, no arguments, an untouched
/// environment, and both stage tokens queued.
pub fn daemon_request(exe: Vec<u8>, current_exe: Option<Vec<u8>>) -> (request: SpawnRequest)
    ensures
        request.exe == exe,
        opt_view(request.argv0) == match current_exe {
            Some(path) => Some(path@),
            None => Some(exe@),
        },
        request.args@.len() == 0,
        request.extra_env@.len() == 0,
        opt_view(request.prequeue) == Some(token(TOKEN_STAGE1) + token(TOKEN_STAGE2)),
{
    let argv0 = match current_exe {
        Some(path) => path,
        None => vstd::slice::slice_to_vec(exe.as_slice()),
    };
    SpawnRequest {
        exe,
        argv0: Some(argv0),
        args: Vec::new(),
        extra_env: Vec::new(),
        prequeue: Some(prequeued_tokens()),
    }
}

/// What to spawn in order to re-exec the running binary as a daemon: the
/// resolved path under the name of the running executable where that is known,
/// no arguments, an untouched environment, and both stage tokens queued.
pub fn spawn_daemon_process(probe: ExeProbe, current_exe: Option<Vec<u8>>) -> (request: Result<
    SpawnRequest,
    SpawnDaemonError,
>)
    ensures
        match exe_path(probe) {
            Err(refusal) => request matches Err(err) && reports(err, refusal),
            Ok(exe) => request matches Ok(r) && {
                &&& r.exe@ == exe
                &&& opt_view(r.argv0) == match current_exe {
                    Some(path) => Some(path@),
                    None => Some(exe),
                }
                &&& r.args@.len() == 0
                &&& r.extra_env@.len() == 0
                &&& opt_view(r.prequeue) == Some(token(TOKEN_STAGE1) + token(TOKEN_STAGE2))
            },
        },
{
    match linux_daemon_exe_path(probe) {
        Ok(exe) => Ok(daemon_request(exe, current_exe)),
        Err(err) => Err(err),
    }
}

/// What to spawn in order to run another binary on a channel: no name of its
/// own, no arguments, and nothing queued.
pub fn start_background_process_with_exe(exe: Vec<u8>, extra_env: Vec<(Vec<u8>, Vec<u8>)>) -> (request:
    SpawnRequest)
    ensures
        request.exe == exe,
        request.argv0 is None,
        request.args@.len() == 0,
        request.extra_env == extra_env,
        request.prequeue is None,
{
    SpawnRequest { exe, argv0: None, args: Vec::new(), extra_env, prequeue: None }
}

/// A child process to start.
#[derive(Debug)]
pub struct SpawnCommand {
    pub exe: Vec<u8>,
    pub argv0: Option<Vec<u8>>,
    pub args: Vec<Vec<u8>>,
    pub extra_env: Vec<(Vec<u8>, Vec<u8>)>,
    /// The descriptor on which the child receives its end of the channel.
    pub channel_fd: i32,
}

/// Where a spawn stands.
#[derive(Debug)]
pub enum SpawnStep {
    /// Create the channel.
    CreateChannel { request: SpawnRequest },
    /// Write `bytes` to the channel, unframed; `command` comes after that.
    WritePrelude { bytes: Vec<u8>, command: SpawnCommand },
    /// Start the child, with its end of the channel on the given descriptor.
    Spawn { command: SpawnCommand },
    /// The spawn has failed.
    Failed(SpawnDaemonError),
}

/// Begin to spawn: the channel comes first.
pub fn start_background_process_inner(request: SpawnRequest) -> (step: SpawnStep)
    ensures
        step == (SpawnStep::CreateChannel { request }),
{
    SpawnStep::CreateChannel { request }
}

/// Whether `command` starts what `request` asks for.
pub open spec fn starts(command: SpawnCommand, request: SpawnRequest) -> bool {
    &&& command.exe == request.exe
    &&& command.argv0 == request.argv0
    &&& command.args == request.args
    &&& command.extra_env == request.extra_env
    &&& command.channel_fd == DAEMON_CHANNEL_FD
}

/// The step after the channel was created: what is to be queued is written
/// before the child exists, so that it is ahead of everything else.
pub fn spawn_after_create(request: SpawnRequest, created: Result<(), ChannelCreateError>) -> (step:
    SpawnStep)
    ensures
        created matches Err(err) ==> step == SpawnStep::Failed(
            SpawnDaemonError::CreateChannel(err),
        ),
        created is Ok ==> match request.prequeue {
            Some(queued) => step matches SpawnStep::WritePrelude { bytes, command } && bytes
                == queued && starts(command, request),
            None => step matches SpawnStep::Spawn { command } && starts(command, request),
        },
{
    match created {
        Err(err) => SpawnStep::Failed(SpawnDaemonError::CreateChannel(err)),
        Ok(()) => {
            let command = SpawnCommand {
                exe: request.exe,
                argv0: request.argv0,
                args: request.args,
                extra_env: request.extra_env,
                channel_fd: DAEMON_CHANNEL_FD,
            };
            match request.prequeue {
                Some(bytes) => SpawnStep::WritePrelude { bytes, command },
                None => SpawnStep::Spawn { command },
            }
        },
    }
}

/// The step after the queued bytes were written.
pub fn spawn_after_prelude(command: SpawnCommand, written: Result<(), IoError>) -> (step: SpawnStep)
    ensures
        written is Ok ==> step == (SpawnStep::Spawn { command }),
        written matches Err(source) ==> step == SpawnStep::Failed(
            SpawnDaemonError::Spawn { path: command.exe, source },
        ),
{
    match written {
        Ok(()) => SpawnStep::Spawn { command },
        Err(source) => SpawnStep::Failed(SpawnDaemonError::Spawn { path: command.exe, source }),
    }
}

/// The error for a child that could not be started from `exe`.
pub fn spawn_failure(exe: Vec<u8>, source: IoError) -> (err: SpawnDaemonError)
    ensures
        err == (SpawnDaemonError::Spawn { path: exe, source }),
{
    SpawnDaemonError::Spawn { path: exe, source }
}

/// One action on the processes of a spawn.
#[derive(Clone, Copy, Debug, PartialEq, Eq, Structural)]
pub enum CleanupAction {
    /// Send the kill signal to this pid, which is negative: to the process
    /// group of that number.
    KillGroup { pid: i32 },
    /// Kill the direct child.
    KillChild,
    /// Wait for the direct child.
    Reap,
}

/// How a spawn ends: what to do to its processes, in this order, and what to
/// return.
#[derive(Debug)]
pub struct Completion<C> {
    pub actions: Vec<CleanupAction>,
    pub result: Result<C, SpawnDaemonError>,
}

/// What is done to the processes of a spawn once its handshake is over. After a
/// match the intermediate has exited and is reaped. After anything else the
/// daemon is killed through the group that its session leader created, the
/// direct child is killed in case it had no group of its own yet, the group
/// again in case that came between the two, and then the child is reaped.
pub open spec fn completion_actions(child_pid: int, matched: bool) -> Seq<CleanupAction> {
    if matched {
        seq![CleanupAction::Reap]
    } else {
        seq![
            CleanupAction::KillGroup { pid: (-child_pid) as i32 },
            CleanupAction::KillChild,
            CleanupAction::KillGroup { pid: (-child_pid) as i32 },
            CleanupAction::Reap,
        ]
    }
}

/// Complete a spawn whose child is `child_pid`, given what came over the channel
/// in place of the build id.
pub fn complete_spawn<C>(
    client: C,
    child_pid: i32,
    received: Result<Vec<u8>, ChannelRecvError>,
    expected_build_id: &str,
) -> (completion: Completion<C>)
    requires
        child_pid > 0,
    ensures
        exists|verdict: Result<C, HandshakeError>| #[trigger]
            is_verdict(client, received, expected_build_id@, verdict) && completion.result
                == match verdict {
                Ok(client) => Ok::<C, SpawnDaemonError>(client),
                Err(err) => Err(SpawnDaemonError::Handshake(err)),
            },
        completion.result is Ok <==> (received matches Ok(bytes) && bytes@
            == vstd::utf8::encode_utf8(expected_build_id@)),
        completion.actions@ == completion_actions(child_pid as int, completion.result is Ok),
{
    let verdict = validate_handshake_and_build_client(client, received, expected_build_id);
    let ghost verdict_of_handshake = verdict;
    assert(is_verdict(client, received, expected_build_id@, verdict_of_handshake));
    let mut actions: Vec<CleanupAction> = Vec::new();
    match verdict {
        Ok(client) => {
            actions.push(CleanupAction::Reap);
            assert(actions@ =~= completion_actions(child_pid as int, true));
            Completion { actions, result: Ok(client) }
        },
        Err(err) => {
            let group: i32 = -child_pid;
            actions.push(CleanupAction::KillGroup { pid: group });
            actions.push(CleanupAction::KillChild);
            actions.push(CleanupAction::KillGroup { pid: group });
            actions.push(CleanupAction::Reap);
            assert(actions@ =~= completion_actions(child_pid as int, false));
            Completion { actions, result: Err(SpawnDaemonError::Handshake(err)) }
        },
    }
}

/// A spawn leaves no zombie, and signals nobody else: however it ends, the child
/// is reaped exactly once, and reaping is the last thing that is done, so that
/// no signal goes to a pid that may have been reused.
pub proof fn law_reap_is_the_last_action(child_pid: int, matched: bool)
    requires
        0 < child_pid <= i32::MAX,
    ensures
        ({
            let actions = completion_actions(child_pid, matched);
            &&& actions.last() == CleanupAction::Reap
            &&& forall|i: int|
                0 <= i < actions.len() - 1 ==> #[trigger] actions[i] != CleanupAction::Reap
            &&& forall|i: int|
                0 <= i < actions.len() ==> (#[trigger] actions[i] matches CleanupAction::KillGroup {
                    pid,
                } ==> pid == -child_pid && pid < 0)
        }),
{
}

/// The daemon is the very image that is running wherever the kernel's link to it
/// can be read: the path is that link, whatever the exec-time path and the first
/// argument are, and whether or not the process is privileged.
pub proof fn law_readable_link_is_always_taken(
    probe: ExeProbe,
    path: Result<Vec<u8>, SpawnDaemonError>,
)
    requires
        probe.proc_self_exe_readable,
        call_ensures(linux_daemon_exe_path, (probe,), path),
    ensures
        path matches Ok(bytes) && bytes@.len() == 14 && forall|i: int|
            0 <= i < 14 ==> (#[trigger] bytes@[i]) as char == "/proc/self/exe"@[i],
{
    reveal_strlit("/proc/self/exe");
}

/// Whether the exec-time path leads to a file without `/proc`: it is there, it is
/// not empty, and it is not below `/dev/fd/`.
pub open spec fn resolves_by_itself(execfn: Option<Vec<u8>>) -> bool {
    execfn matches Some(path) && path@.len() > 0 && !(path@.len() >= 8 && forall|i: int|
        0 <= i < 8 ==> (#[trigger] path@[i]) as char == "/dev/fd/"@[i])
}

/// Without the link, an unprivileged process takes the exec-time path where that
/// resolves by itself, and else its first argument where that is not empty; it is
/// refused where it has neither, and a privileged one is refused in any case. The
/// two refusals differ in their kind.
pub proof fn law_path_without_the_link(probe: ExeProbe, path: Result<Vec<u8>, SpawnDaemonError>)
    requires
        !probe.proc_self_exe_readable,
        call_ensures(linux_daemon_exe_path, (probe,), path),
    ensures
        probe.secure_execution ==> (path matches Err(SpawnDaemonError::ExePath(io)) && io.kind
            == IoErrorKind::PermissionDenied && io.raw_os_error is None),
        !probe.secure_execution && resolves_by_itself(probe.execfn) ==> (path matches Ok(bytes)
            && Some(bytes@) == opt_view(probe.execfn)),
        !probe.secure_execution && !resolves_by_itself(probe.execfn) && (probe.argv0 matches Some(arg)
            && arg@.len() > 0) ==> (path matches Ok(bytes) && Some(bytes@) == opt_view(probe.argv0)),
        !probe.secure_execution && !resolves_by_itself(probe.execfn) && !(probe.argv0 matches Some(
            arg,
        ) && arg@.len() > 0) ==> (path matches Err(SpawnDaemonError::ExePath(io)) && io.kind
            == IoErrorKind::NotFound && io.raw_os_error is None),
{
    lemma_resolves_by_itself(probe.execfn);
}

proof fn lemma_resolves_by_itself(execfn: Option<Vec<u8>>)
    ensures
        usable_execfn(opt_view(execfn)) is Some <==> resolves_by_itself(execfn),
        usable_execfn(opt_view(execfn)) is Some ==> usable_execfn(opt_view(execfn)) == opt_view(
            execfn,
        ),
{
    reveal_strlit("/dev/fd/");
    if let Some(path) = execfn {
        if path@.len() >= 8 {
            let head = path@.subrange(0, 8);
            if forall|i: int| 0 <= i < 8 ==> (#[trigger] path@[i]) as char == "/dev/fd/"@[i] {
                assert forall|i: int| 0 <= i < 8 implies head[i] == DEV_FD_PREFIX@[i] by {
                    assert(path@[i] as char == "/dev/fd/"@[i]);
                    assert(path@[i] == head[i]);
                }
                assert(head =~= DEV_FD_PREFIX@);
            }
            if head == DEV_FD_PREFIX@ {
                assert forall|i: int| 0 <= i < 8 implies (#[trigger] path@[i]) as char
                    == "/dev/fd/"@[i] by {
                    assert(path@[i] == head[i]);
                }
            }
        }
    }
}

/// The exec-time path is kept as it is where it resolves by itself, and dropped
/// where it does not.
pub proof fn law_exec_time_path_is_kept_or_dropped(execfn: Option<Vec<u8>>, path: Option<Vec<u8>>)
    requires
        call_ensures(exe_path_from_auxv, (execfn,), path),
    ensures
        path is Some <==> resolves_by_itself(execfn),
        path is Some ==> opt_view(path) == opt_view(execfn),
{
    lemma_resolves_by_itself(execfn);
}

/// A spawn of the running binary starts the path that was resolved, under the
/// name of the running executable where that is known, with no arguments and an
/// untouched environment, and queues what takes the child through both stages.
/// It is refused exactly where no path is found, with that refusal.
pub proof fn law_daemon_spawn_is_that_of_the_resolved_path(
    probe: ExeProbe,
    current_exe: Option<Vec<u8>>,
    path: Result<Vec<u8>, SpawnDaemonError>,
    request: Result<SpawnRequest, SpawnDaemonError>,
)
    requires
        call_ensures(linux_daemon_exe_path, (probe,), path),
        call_ensures(spawn_daemon_process, (probe, current_exe), request),
    ensures
        request is Ok <==> path is Ok,
        request matches Ok(r) ==> {
            &&& r.exe@ == path->Ok_0@
            &&& current_exe is Some ==> opt_view(r.argv0) == opt_view(current_exe)
            &&& current_exe is None ==> opt_view(r.argv0) == Some(r.exe@)
            &&& r.args@.len() == 0
            &&& r.extra_env@.len() == 0
            &&& r.prequeue matches Some(queued) && queued@.len() == 66 && arm_of(queued@)
                == StageDispatch::DaemonStage1 && arm_of(queued@.subrange(33, 66))
                == StageDispatch::DaemonStage2
        },
        request matches Err(refused) ==> (path matches Err(err) && refused matches
            SpawnDaemonError::ExePath(a) && err matches SpawnDaemonError::ExePath(b) && a.kind
            == b.kind && a.message@ == b.message@),
{
    law_prequeued_tokens_route_both_stages(Seq::empty());
    let queue = token(TOKEN_STAGE1) + token(TOKEN_STAGE2);
    assert(queue + Seq::<u8>::empty() =~= queue);
}

/// In a spawn the channel comes first, what is to be queued is written before the
/// child exists, and the child that is started is the one that was asked for, on
/// the channel's descriptor. A step that fails ends the spawn with its error.
pub proof fn law_spawn_queues_before_it_starts(
    request: SpawnRequest,
    begun: SpawnStep,
    created: Result<(), ChannelCreateError>,
    after_create: SpawnStep,
    command: SpawnCommand,
    written: Result<(), IoError>,
    after_prelude: SpawnStep,
)
    requires
        call_ensures(start_background_process_inner, (request,), begun),
        call_ensures(spawn_after_create, (request, created), after_create),
        call_ensures(spawn_after_prelude, (command, written), after_prelude),
    ensures
        begun == (SpawnStep::CreateChannel { request }),
        created matches Err(err) ==> after_create == SpawnStep::Failed(
            SpawnDaemonError::CreateChannel(err),
        ),
        created is Ok && request.prequeue is Some ==> (after_create matches SpawnStep::WritePrelude {
            bytes,
            command: c,
        } && Some(bytes) == request.prequeue && c.exe == request.exe && c.argv0 == request.argv0
            && c.args == request.args && c.extra_env == request.extra_env && c.channel_fd == 3),
        created is Ok && request.prequeue is None ==> (after_create matches SpawnStep::Spawn {
            command: c,
        } && c.exe == request.exe && c.argv0 == request.argv0 && c.args == request.args
            && c.extra_env == request.extra_env && c.channel_fd == 3),
        written is Ok ==> after_prelude == (SpawnStep::Spawn { command }),
        written matches Err(err) ==> (after_prelude matches SpawnStep::Failed(
            SpawnDaemonError::Spawn { path, source },
        ) && path == command.exe && source == err),
{
}

/// A spawn of another binary starts that binary with that environment, and leaves
/// the channel empty for it; a child that could not be started is reported by its
/// path.
pub proof fn law_helper_spawn_starts_what_it_is_given(
    exe: Vec<u8>,
    extra_env: Vec<(Vec<u8>, Vec<u8>)>,
    request: SpawnRequest,
    source: IoError,
    failure: SpawnDaemonError,
)
    requires
        call_ensures(start_background_process_with_exe, (exe, extra_env), request),
        call_ensures(spawn_failure, (exe, source), failure),
    ensures
        request.exe == exe && request.extra_env == extra_env,
        request.argv0 is None && request.prequeue is None && request.args@.len() == 0,
        failure matches SpawnDaemonError::Spawn { path, source: s } && path == exe && s == source,
{
}

/// A daemon whose build id is the expected one is signalled by nobody, and its
/// client is handed over. Any other is killed, with its whole group, before and
/// after its leader, and then reaped.
pub proof fn law_only_a_failed_spawn_is_killed<C>(
    client: C,
    child_pid: i32,
    received: Result<Vec<u8>, ChannelRecvError>,
    expected: &str,
    completion: Completion<C>,
)
    requires
        child_pid > 0,
        call_ensures(complete_spawn::<C>, (client, child_pid, received, expected), completion),
    ensures
        completion.result is Ok <==> (received matches Ok(bytes) && bytes@
            == vstd::utf8::encode_utf8(expected@)),
        completion.result is Ok ==> completion.result->Ok_0 == client && completion.actions@ == seq![
            CleanupAction::Reap,
        ],
        completion.result is Err ==> {
            &&& completion.result->Err_0 is Handshake
            &&& completion.actions@.len() == 4
            &&& completion.actions@[0] == (CleanupAction::KillGroup { pid: (-child_pid) as i32 })
            &&& completion.actions@[1] == CleanupAction::KillChild
            &&& completion.actions@[2] == completion.actions@[0]
            &&& completion.actions@[3] == CleanupAction::Reap
        },
        received matches Err(err) ==> completion.result == Err::<C, SpawnDaemonError>(
            SpawnDaemonError::Handshake(HandshakeError::Recv(err)),
        ),
{
}

/// A spawn of a given binary as a daemon starts that binary, under the name of
/// the running executable where that is known, and queues what takes the child
/// through both stages.
pub proof fn law_daemon_request_is_that_of_its_path(
    exe: Vec<u8>,
    current_exe: Option<Vec<u8>>,
    request: SpawnRequest,
)
    requires
        call_ensures(daemon_request, (exe, current_exe), request),
    ensures
        request.exe == exe && request.args@.len() == 0 && request.extra_env@.len() == 0,
        current_exe is Some ==> opt_view(request.argv0) == opt_view(current_exe),
        current_exe is None ==> opt_view(request.argv0) == Some(exe@),
        request.prequeue matches Some(queued) && queued@.len() == 66 && arm_of(queued@)
            == StageDispatch::DaemonStage1 && arm_of(queued@.subrange(33, 66))
            == StageDispatch::DaemonStage2,
{
    law_prequeued_tokens_route_both_stages(Seq::empty());
    let queue = token(TOKEN_STAGE1) + token(TOKEN_STAGE2);
    assert(queue + Seq::<u8>::empty() =~= queue);
}

/// A spawn knows what to do whatever the system says about the image, and however
/// its steps go.
pub proof fn law_spawn_answers_every_outcome(
    probe: ExeProbe,
    current_exe: Option<Vec<u8>>,
    request: SpawnRequest,
    created: Result<(), ChannelCreateError>,
    command: SpawnCommand,
    written: Result<(), IoError>,
    child_pid: i32,
    received: Result<Vec<u8>, ChannelRecvError>,
    expected: &str,
)
    ensures
        call_requires(linux_daemon_exe_path, (probe,)),
        call_requires(spawn_daemon_process, (probe, current_exe)),
        call_requires(start_background_process_inner, (request,)),
        call_requires(spawn_after_create, (request, created)),
        call_requires(spawn_after_prelude, (command, written)),
        child_pid > 0 ==> call_requires(complete_spawn::<()>, ((), child_pid, received, expected)),
{
}

} // verus!
