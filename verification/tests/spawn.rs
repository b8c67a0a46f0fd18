use daemonizable::app::bootstrap::{
    bootstrap_spawn_request, complete_bootstrap, dispatch_decision, pipe_claim_after,
    rpc_server_from_inherited_fds as claim_pipes, run_as_daemon_child, BootstrapError, ChildEvent,
    ChildStep, DispatchDecision, InheritedFdsError, PipeClaimEvent, PipeClaimStep,
};
use daemonizable::app::daemon_child::{
    run_as_daemon_stage1, run_as_daemon_stage2, stage2_argv0, Stage1Event, Stage1Step, Stage2Event, Stage2Step,
};
use daemonizable::app::run::RunGuard;
use daemonizable::error::{
    ChannelCreateError, ChannelRecvError, ChannelSendError, Errno, HandshakeError,
    InheritedFdError, IoError, IoErrorKind, SpawnDaemonError, SysError,
};
use daemonizable::spawn::inherited::{
    claim_after_clone, claim_after_get_flags, claim_after_set_flags, claim_after_stat,
    rpc_server_from_inherited_fds, set_cloexec, validate_inherited_fds, ClaimGuard, ClaimStep,
};
use daemonizable::spawn::peercred::{creds_match, verify_channel_peer_creds, PeerCredError};
use daemonizable::spawn::process::{
    complete_spawn, exe_path_from_auxv, linux_daemon_exe_path, spawn_after_create,
    spawn_after_prelude, spawn_daemon_process, spawn_failure, start_background_process_inner,
    start_background_process_with_exe, CleanupAction, ExeProbe, SpawnStep,
};
use daemonizable::spawn::token::{
    channel_has_stage2_token, classify, consume_token, dispatch_from_channel, peek_and_classify,
    prequeued_tokens, stage_token, DispatchStep, Probe, StageDispatch, TOKEN_LEN, TOKEN_MAGIC,
    TOKEN_STAGE1, TOKEN_STAGE2,
};
use daemonizable::stdio::{detach_stdio, DetachEvent, DetachStdioError, DetachStep};

fn io_error(message: &str) -> IoError {
    IoError {
        kind: IoErrorKind::Other,
        raw_os_error: Some(5),
        message: message.to_string(),
        debug: format!("Os {{ code: 5, kind: Uncategorized, message: {message:?} }}"),
    }
}

fn sys_error(message: &str) -> SysError {
    SysError { errno: Errno::Other(5), error: io_error(message) }
}

fn errno_of(errno: nix::errno::Errno) -> Errno {
    match errno {
        nix::errno::Errno::EAGAIN => Errno::EAGAIN,
        nix::errno::Errno::EINTR => Errno::EINTR,
        nix::errno::Errno::ECONNRESET => Errno::ECONNRESET,
        other => Errno::Other(other as i32),
    }
}

fn magic_with(stage: u8) -> Vec<u8> {
    let mut v = TOKEN_MAGIC.to_vec();
    v.push(stage);
    v
}

#[test]
fn classify_decision_table() {
    for errno in [
        nix::errno::Errno::EAGAIN,
        nix::errno::Errno::EINVAL,
        nix::errno::Errno::ENOTCONN,
        nix::errno::Errno::EBADF,
        nix::errno::Errno::ENOTSOCK,
        nix::errno::Errno::ECONNRESET,
        nix::errno::Errno::EIO,
    ] {
        assert_eq!(
            classify(Err(errno_of(errno))),
            StageDispatch::Foreground,
            "errno {errno:?} must map to Foreground"
        );
    }

    assert_eq!(classify(Ok(&[])), StageDispatch::Foreground);
    assert_eq!(classify(Ok(&[TOKEN_MAGIC[0]])), StageDispatch::Foreground);
    assert_eq!(classify(Ok(&TOKEN_MAGIC[..])), StageDispatch::Foreground);

    let mut wrong = magic_with(TOKEN_STAGE1);
    wrong[0] ^= 0xff;
    assert_eq!(classify(Ok(&wrong)), StageDispatch::Foreground);

    assert_eq!(classify(Ok(&magic_with(TOKEN_STAGE1))), StageDispatch::DaemonStage1);
    assert_eq!(classify(Ok(&magic_with(TOKEN_STAGE2))), StageDispatch::DaemonStage2);

    for tag in [0u8, 3, 255] {
        assert_eq!(
            classify(Ok(&magic_with(tag))),
            StageDispatch::Foreground,
            "unknown stage tag {tag} must map to Foreground"
        );
    }

    let mut trailing = magic_with(TOKEN_STAGE1);
    trailing.extend_from_slice(b"more data");
    assert_eq!(classify(Ok(&trailing)), StageDispatch::DaemonStage1);
}

#[test]
fn tokens_are_thirty_three_bytes_and_queued_back_to_back() {
    assert_eq!(TOKEN_LEN, 33);
    assert_eq!(stage_token(TOKEN_STAGE1), magic_with(1));
    let queued = prequeued_tokens();
    assert_eq!(queued.len(), 66);
    assert_eq!(classify(Ok(&queued)), StageDispatch::DaemonStage1);
    assert_eq!(classify(Ok(&queued[33..])), StageDispatch::DaemonStage2);
}

#[test]
fn interrupted_peek_is_made_again() {
    assert_eq!(peek_and_classify(Err(Errno::EINTR)), Probe::PeekAgain);
    assert_eq!(channel_has_stage2_token(Err(Errno::EINTR)), None);
    assert_eq!(dispatch_from_channel(Err(Errno::EINTR)), DispatchStep::Peek);
    assert_eq!(
        peek_and_classify(Err(Errno::EAGAIN)),
        Probe::Decided(StageDispatch::Foreground)
    );
}

#[test]
fn second_token_check_is_exact() {
    assert_eq!(channel_has_stage2_token(Ok(&magic_with(TOKEN_STAGE2))), Some(true));
    assert_eq!(channel_has_stage2_token(Ok(&magic_with(TOKEN_STAGE1))), Some(false));
    assert_eq!(channel_has_stage2_token(Ok(&[])), Some(false));
    assert_eq!(channel_has_stage2_token(Err(Errno::EAGAIN)), Some(false));
}

#[test]
fn dispatch_consumes_exactly_the_matched_token() {
    for chunk in [1usize, 5, 32, 33] {
        let mut queue: Vec<u8> = prequeued_tokens();
        queue.extend_from_slice(b"\x02\x00\x00\x00hi");
        for (expected, left) in
            [(StageDispatch::DaemonStage1, 39usize), (StageDispatch::DaemonStage2, 6)]
        {
            let mut step = dispatch_from_channel(Ok(&queue[..33.min(queue.len())]));
            loop {
                match step {
                    DispatchStep::Consume { arm, max } => {
                        let n = chunk.min(max);
                        queue.drain(..n);
                        step = consume_token(arm, max, Ok(n));
                    }
                    DispatchStep::Done(arm) => {
                        assert_eq!(arm, expected);
                        break;
                    }
                    DispatchStep::Peek => panic!("the peek was not interrupted"),
                }
            }
            assert_eq!(queue.len(), left);
        }
        assert_eq!(
            dispatch_from_channel(Ok(&queue)),
            DispatchStep::Done(StageDispatch::Foreground)
        );
    }
}

#[test]
fn broken_channel_ends_the_consumption() {
    let arm = StageDispatch::DaemonStage1;
    assert_eq!(consume_token(arm, 33, Ok(0)), DispatchStep::Done(arm));
    assert_eq!(consume_token(arm, 33, Err(Errno::EAGAIN)), DispatchStep::Done(arm));
    assert_eq!(
        consume_token(arm, 20, Err(Errno::EINTR)),
        DispatchStep::Consume { arm, max: 20 }
    );
}

#[test]
fn creds_match_accepts_equal_and_rejects_any_difference() {
    assert!(creds_match((1000, 1000), (1000, 1000)).is_ok());
    assert!(creds_match((0, 0), (0, 0)).is_ok());

    let uid_only = creds_match((1001, 1000), (1000, 1000));
    assert!(matches!(
        uid_only,
        Err(PeerCredError::CredMismatch {
            peer_uid: 1001,
            our_uid: 1000,
            peer_gid: 1000,
            our_gid: 1000,
        })
    ));

    let gid_only = creds_match((1000, 1001), (1000, 1000));
    assert!(matches!(
        gid_only,
        Err(PeerCredError::CredMismatch { peer_gid: 1001, our_gid: 1000, .. })
    ));

    assert!(matches!(
        creds_match((0, 0), (1000, 1000)),
        Err(PeerCredError::CredMismatch { .. })
    ));
}

#[test]
fn peer_without_local_credentials_is_rejected() {
    let err = verify_channel_peer_creds(Ok((u32::MAX, u32::MAX)), (1000, 1000)).unwrap_err();
    assert_eq!(
        err.message(),
        "channel peer credentials (uid 4294967295, gid 4294967295) do not match ours \
         (uid 1000, gid 1000); refusing to serve a channel from a different principal"
    );
    let err = verify_channel_peer_creds(Err(sys_error("ENOTSOCK")), (0, 0)).unwrap_err();
    assert!(matches!(err, PeerCredError::Lookup(_)));
    assert_eq!(err.message(), "could not read the channel peer's credentials: ENOTSOCK");
    assert!(verify_channel_peer_creds(Ok((7, 8)), (7, 8)).is_ok());
}

#[test]
fn inherited_rpc_server_from_inherited_fds_rejects_a_second_claim() {
    let mut guard = ClaimGuard::new(true);
    let step = rpc_server_from_inherited_fds(&mut guard);
    let ClaimStep::Done(result) = step else {
        panic!("a second claim touches no descriptor");
    };
    let err = result
        .err()
        .expect("a second claim of the daemon channel fd must be rejected");
    assert!(
        matches!(err, InheritedFdError::AlreadyClaimed { .. }),
        "expected AlreadyClaimed, got: {err:?}"
    );
    assert_eq!(
        err.message(),
        "the inherited daemon channel fd (3) has already been claimed; \
         rpc_server_from_inherited_fd must be called at most once per process"
    );
}

#[test]
fn spawn_rpc_server_from_inherited_fds_rejects_a_second_claim() {
    let mut guard = ClaimGuard::new(true);
    let PipeClaimStep::Done(result) = claim_pipes(&mut guard) else {
        panic!("a second claim touches no descriptor");
    };
    let err = result
        .err()
        .expect("a second claim of the daemon fds must be rejected");
    assert!(
        matches!(err, InheritedFdsError::AlreadyClaimed { .. }),
        "expected AlreadyClaimed, got: {err:?}"
    );
}

#[test]
fn failed_claim_still_uses_up_the_only_claim() {
    let mut guard = ClaimGuard::new(false);
    assert!(matches!(rpc_server_from_inherited_fds(&mut guard), ClaimStep::Stat));
    assert!(guard.is_claimed());
    let ClaimStep::Done(Err(err)) = claim_after_stat(Err(io_error("EBADF"))) else {
        panic!("a closed descriptor ends the claim");
    };
    assert_eq!(
        err.message(),
        "fd 3 (daemon channel) is not open. This entry point is internal to this binary; \
         do not invoke it directly. (EBADF)"
    );
    assert!(matches!(
        rpc_server_from_inherited_fds(&mut guard),
        ClaimStep::Done(Err(InheritedFdError::AlreadyClaimed { channel_fd: 3 }))
    ));
}

#[test]
fn claim_goes_through_every_step() {
    assert!(validate_inherited_fds(Ok(0o140755)).is_ok());
    assert!(matches!(claim_after_stat(Ok(0o140755)), ClaimStep::AdoptAndGetFlags));
    let ClaimStep::Done(Err(err)) = claim_after_stat(Ok(0o010600)) else {
        panic!("a pipe is no channel");
    };
    assert_eq!(
        err.message(),
        "fd 3 (daemon channel) is not a socket (st_mode=0o10600). This entry point is \
         internal to this binary; do not invoke it directly."
    );
    assert!(matches!(claim_after_get_flags(Ok(0)), ClaimStep::SetFlags(1)));
    assert!(matches!(claim_after_set_flags(Ok(())), ClaimStep::Clone));
    assert!(matches!(claim_after_clone(Ok(())), ClaimStep::Done(Ok(()))));
    let ClaimStep::Done(Err(err)) = claim_after_get_flags(Err(io_error("EBADF"))) else {
        panic!("the claim ends");
    };
    assert_eq!(
        err.message(),
        "fcntl(F_GETFD) failed restoring FD_CLOEXEC on fd 3 (daemon channel): EBADF"
    );
    let ClaimStep::Done(Err(err)) = claim_after_set_flags(Err(io_error("EBADF"))) else {
        panic!("the claim ends");
    };
    assert!(matches!(err, InheritedFdError::SetCloexec { operation: "F_SETFD", .. }));
    let ClaimStep::Done(Err(err)) = claim_after_clone(Err(io_error("EMFILE"))) else {
        panic!("the claim ends");
    };
    assert_eq!(
        err.message(),
        "failed to clone the daemon channel fd into its send/recv halves: EMFILE"
    );
}

#[test]
fn set_cloexec_keeps_other_flags() {
    assert_eq!(set_cloexec(0), 1);
    assert_eq!(set_cloexec(1), 1);
    assert_eq!(set_cloexec(0b1010), 0b1011);
}

#[test]
fn pipe_claim_checks_both_descriptors() {
    let mut guard = ClaimGuard::new(false);
    assert!(matches!(claim_pipes(&mut guard), PipeClaimStep::Stat { fd: 3 }));
    let stat = |fd, st_mode| pipe_claim_after(PipeClaimEvent::Stat { fd, st_mode });
    assert!(matches!(stat(3, Ok(0o010600)), PipeClaimStep::Stat { fd: 4 }));
    assert!(matches!(stat(4, Ok(0o010600)), PipeClaimStep::GetFlags { fd: 3 }));
    assert!(matches!(
        stat(4, Ok(0o140600)),
        PipeClaimStep::Done(Err(InheritedFdsError::NotAPipe {
            fd: 4,
            label: "response-send",
            st_mode: 0o140600
        }))
    ));
    assert!(matches!(
        stat(3, Err(io_error("EBADF"))),
        PipeClaimStep::Done(Err(InheritedFdsError::NotOpen { fd: 3, label: "request-recv", .. }))
    ));
}

#[test]
fn pipe_claim_restores_cloexec_on_both_descriptors() {
    let get = |fd, flags| pipe_claim_after(PipeClaimEvent::GetFlags { fd, flags });
    let set = |fd, set| pipe_claim_after(PipeClaimEvent::SetFlags { fd, set });
    assert!(matches!(get(3, Ok(0)), PipeClaimStep::SetFlags { fd: 3, flags: 1 }));
    assert!(matches!(set(3, Ok(())), PipeClaimStep::GetFlags { fd: 4 }));
    assert!(matches!(get(4, Ok(2)), PipeClaimStep::SetFlags { fd: 4, flags: 3 }));
    assert!(matches!(set(4, Ok(())), PipeClaimStep::Done(Ok(()))));
    let PipeClaimStep::Done(Err(err)) = get(3, Err(io_error("EBADF"))) else {
        panic!("the claim ends");
    };
    assert_eq!(
        err.message(),
        "fcntl(F_GETFD) failed restoring FD_CLOEXEC on fd 3 (request-recv): EBADF"
    );
    let PipeClaimStep::Done(Err(err)) = set(4, Err(io_error("EBADF"))) else {
        panic!("the claim ends");
    };
    assert_eq!(
        err.message(),
        "fcntl(F_SETFD) failed restoring FD_CLOEXEC on fd 4 (response-send): EBADF"
    );
}

#[test]
fn pipe_claim_errors_have_their_messages() {
    let mut guard = ClaimGuard::new(true);
    let PipeClaimStep::Done(Err(err)) = claim_pipes(&mut guard) else {
        panic!("there is one claim only");
    };
    assert_eq!(err.message(), "the inherited daemon fds (3 and 4) have already been claimed");
    let err = InheritedFdsError::NotOpen { fd: 3, label: "request-recv", source: io_error("EBADF") };
    assert_eq!(err.message(), "fd 3 (request-recv) is not open. (EBADF)");
    let err = InheritedFdsError::NotAPipe { fd: 4, label: "response-send", st_mode: 0o140600 };
    assert_eq!(err.message(), "fd 4 (response-send) is not a pipe (st_mode=0o140600).");
}

#[test]
fn bootstrap_spawn_marks_the_child() {
    let request = bootstrap_spawn_request(b"/proc/self/exe".to_vec(), Some(b"/bin/app".to_vec()));
    assert_eq!(request.exe, b"/proc/self/exe");
    assert_eq!(request.argv0, Some(b"/bin/app".to_vec()));
    assert!(request.args.is_empty());
    assert_eq!(
        request.extra_env,
        [(b"DAEMONIZABLE_DAEMON_CHILD".to_vec(), b"1".to_vec())]
    );
    assert_eq!(request.prequeue, None);
    let request = bootstrap_spawn_request(b"/proc/self/exe".to_vec(), None);
    assert_eq!(request.argv0, Some(b"/proc/self/exe".to_vec()));
}

#[test]
fn failed_bootstrap_is_killed_and_then_reaped() {
    let completion = complete_bootstrap("client", Ok(()));
    assert!(completion.actions.is_empty());
    assert!(matches!(completion.result, Ok("client")));
    let completion = complete_bootstrap("client", Err(BootstrapError::MalformedAck { len: 3 }));
    assert_eq!(completion.actions, [CleanupAction::KillChild, CleanupAction::Reap]);
    assert!(matches!(completion.result, Err(BootstrapError::MalformedAck { len: 3 })));
}

#[test]
fn dispatch_decision_table() {
    let cases: &[(Option<&str>, DispatchDecision)] = &[
        (None, DispatchDecision::Foreground),
        (Some("1"), DispatchDecision::DaemonChild),
        (Some(""), DispatchDecision::Foreground),
        (Some("0"), DispatchDecision::Foreground),
        (Some("true"), DispatchDecision::Foreground),
        (Some("11"), DispatchDecision::Foreground),
    ];
    for (marker, expected) in cases {
        assert_eq!(
            *expected,
            dispatch_decision(marker.map(str::as_bytes)),
            "wrong decision for marker {marker:?}",
        );
    }
}

#[test]
fn entry_point_is_entered_once() {
    let mut guard = RunGuard::new(false);
    assert!(guard.enter());
    assert!(!guard.enter());
    assert!(!guard.enter());
}

fn probe(readable: bool, secure: bool, execfn: Option<&str>, argv0: Option<&str>) -> ExeProbe {
    ExeProbe {
        proc_self_exe_readable: readable,
        secure_execution: secure,
        execfn: execfn.map(|s| s.as_bytes().to_vec()),
        argv0: argv0.map(|s| s.as_bytes().to_vec()),
    }
}

#[test]
fn exe_path_prefers_the_kernel_link() {
    let path = linux_daemon_exe_path(probe(true, false, Some("/bin/app"), Some("app"))).unwrap();
    assert_eq!(path, b"/proc/self/exe");
    let path = linux_daemon_exe_path(probe(true, true, Some("/bin/app"), Some("app"))).unwrap();
    assert_eq!(path, b"/proc/self/exe");
}

#[test]
fn exe_path_falls_back_in_order() {
    let path = linux_daemon_exe_path(probe(false, false, Some("/bin/app"), Some("app"))).unwrap();
    assert_eq!(path, b"/bin/app");
    for execfn in [None, Some(""), Some("/dev/fd/7")] {
        let path = linux_daemon_exe_path(probe(false, false, execfn, Some("app"))).unwrap();
        assert_eq!(path, b"app");
    }
    assert_eq!(exe_path_from_auxv(Some(b"/dev/fd".to_vec())), Some(b"/dev/fd".to_vec()));
    for argv0 in [None, Some("")] {
        let err = linux_daemon_exe_path(probe(false, false, None, argv0)).unwrap_err();
        assert!(
            matches!(&err, SpawnDaemonError::ExePath(io) if io.kind == IoErrorKind::NotFound)
        );
        assert_eq!(
            err.message(),
            "Failed to determine the executable path to re-exec: /proc is not mounted and \
             neither AT_EXECFN nor argv[0] yielded an executable path to re-exec"
        );
        let SpawnDaemonError::ExePath(io) = err else {
            panic!("there is no path");
        };
        // The debug output is that of a standard error of this kind and text.
        let same = std::io::Error::new(std::io::ErrorKind::NotFound, io.message.clone());
        assert_eq!(io.debug, format!("{same:?}"));
    }
}

#[test]
fn secure_execution_refuses_the_fallbacks() {
    let err =
        linux_daemon_exe_path(probe(false, true, Some("/bin/app"), Some("app"))).unwrap_err();
    assert!(
        matches!(&err, SpawnDaemonError::ExePath(io) if io.kind == IoErrorKind::PermissionDenied)
    );
    assert!(err.message().contains("refusing to re-exec"));
    let SpawnDaemonError::ExePath(io) = err else {
        panic!("there is no path");
    };
    let same = std::io::Error::new(std::io::ErrorKind::PermissionDenied, io.message.clone());
    assert_eq!(io.debug, format!("{same:?}"));
}

#[test]
fn daemon_spawn_queues_tokens_before_the_child_exists() {
    let request =
        spawn_daemon_process(probe(true, false, None, None), Some(b"/opt/app".to_vec())).unwrap();
    assert_eq!(request.exe, b"/proc/self/exe");
    assert_eq!(request.argv0.as_deref(), Some(&b"/opt/app"[..]));
    assert!(request.args.is_empty());
    assert!(request.extra_env.is_empty());
    let SpawnStep::CreateChannel { request } = start_background_process_inner(request) else {
        panic!("the channel comes first");
    };
    let SpawnStep::WritePrelude { bytes, command } = spawn_after_create(request, Ok(())) else {
        panic!("the tokens come second");
    };
    assert_eq!(bytes, prequeued_tokens());
    assert_eq!(command.channel_fd, 3);
    let SpawnStep::Spawn { command } = spawn_after_prelude(command, Ok(())) else {
        panic!("the child comes last");
    };
    assert_eq!(command.exe, b"/proc/self/exe");
    let SpawnStep::Failed(err) = spawn_after_prelude(command, Err(io_error("EPIPE"))) else {
        panic!("a failed write fails the spawn");
    };
    assert_eq!(err.message(), "Failed to spawn daemon binary at /proc/self/exe: EPIPE");
}

#[test]
fn unknown_executable_name_falls_back_to_the_path() {
    let request = spawn_daemon_process(probe(false, false, Some("./app"), None), None).unwrap();
    assert_eq!(request.exe, b"./app");
    assert_eq!(request.argv0.as_deref(), Some(&b"./app"[..]));
}

#[test]
fn helper_spawn_queues_nothing() {
    let env = vec![(b"KEY".to_vec(), b"value".to_vec())];
    let request = start_background_process_with_exe(b"/bin/helper".to_vec(), env.clone());
    let SpawnStep::Spawn { command } = spawn_after_create(request, Ok(())) else {
        panic!("nothing is queued");
    };
    assert_eq!(command.argv0, None);
    assert_eq!(command.extra_env, env);
    let request = start_background_process_with_exe(b"/bin/helper".to_vec(), Vec::new());
    let create_failed = ChannelCreateError::CreateSocket(io_error("EMFILE"));
    let SpawnStep::Failed(err) = spawn_after_create(request, Err(create_failed)) else {
        panic!("no channel, no spawn");
    };
    assert_eq!(err.message(), "Failed to create IPC channel: Failed to create channel: EMFILE");
}

#[test]
fn path_that_is_not_utf8_is_shown_with_replacements() {
    let err = spawn_failure(b"/bin/\xffapp".to_vec(), io_error("ENOENT"));
    assert_eq!(err.message(), "Failed to spawn daemon binary at /bin/\u{fffd}app: ENOENT");
}

#[test]
fn completed_spawn_reaps_the_intermediate() {
    let completion = complete_spawn("client", 4711, Ok(b"app 1.0".to_vec()), "app 1.0");
    assert_eq!(completion.actions, [CleanupAction::Reap]);
    assert_eq!(completion.result.unwrap(), "client");
}

#[test]
fn failed_spawn_kills_the_group_and_reaps_last() {
    let failures: Vec<Result<Vec<u8>, ChannelRecvError>> = vec![
        Ok(b"app 2.0".to_vec()),
        Ok(vec![0xff]),
        Err(ChannelRecvError::SenderClosed),
        Err(ChannelRecvError::Timeout),
    ];
    for received in failures {
        let completion = complete_spawn("client", 4711, received, "app 1.0");
        assert_eq!(
            completion.actions,
            [
                CleanupAction::KillGroup { pid: -4711 },
                CleanupAction::KillChild,
                CleanupAction::KillGroup { pid: -4711 },
                CleanupAction::Reap,
            ]
        );
        assert!(matches!(completion.result, Err(SpawnDaemonError::Handshake(_))));
    }
    let completion = complete_spawn((), 1, Err(ChannelRecvError::SenderClosed), "app 1.0");
    assert!(matches!(
        completion.result,
        Err(SpawnDaemonError::Handshake(HandshakeError::Recv(ChannelRecvError::SenderClosed)))
    ));
}

fn stage1_exit(event: Stage1Event) -> (i32, String) {
    match run_as_daemon_stage1(event) {
        Stage1Step::Exit { code, message } => (code, message),
        other => panic!("expected an exit, got {other:?}"),
    }
}

#[test]
fn stage1_succeeds_step_by_step() {
    assert!(matches!(run_as_daemon_stage1(Stage1Event::Started), Stage1Step::CheckToken2));
    assert!(matches!(
        run_as_daemon_stage1(Stage1Event::Token2Queued(true)),
        Stage1Step::StartSession
    ));
    assert!(matches!(
        run_as_daemon_stage1(Stage1Event::SessionStarted(Ok(()))),
        Stage1Step::ResolveExe
    ));
    assert!(matches!(
        run_as_daemon_stage1(Stage1Event::ExeResolved(Ok(b"/proc/self/exe".to_vec()))),
        Stage1Step::SpawnStage2 { exe } if exe == b"/proc/self/exe"
    ));
    assert!(matches!(
        run_as_daemon_stage1(Stage1Event::Stage2Spawned {
            exe: "\"/proc/self/exe\"".to_string(),
            spawned: Ok(())
        }),
        Stage1Step::ExitImmediately
    ));
}

#[test]
fn stage2_inherits_a_first_argument_that_is_not_empty() {
    assert_eq!(stage2_argv0(Some(b"app".to_vec())), Some(b"app".to_vec()));
    assert_eq!(stage2_argv0(Some(Vec::new())), None);
    assert_eq!(stage2_argv0(None), None);
}

#[test]
fn stage1_failures_have_their_exit_codes() {
    assert_eq!(
        stage1_exit(Stage1Event::Token2Queued(false)),
        (
            2,
            "daemon stage 1: the channel is missing stage 2's token. This entry point is \
             internal to this binary; do not invoke it directly."
                .to_string()
        )
    );
    assert_eq!(
        stage1_exit(Stage1Event::SessionStarted(Err(sys_error("EPERM")))),
        (1, "daemon stage 1: setsid() failed: EPERM".to_string())
    );
    let (code, message) = stage1_exit(Stage1Event::ExeResolved(Err(SpawnDaemonError::ExePath(
        io_error("no path"),
    ))));
    assert_eq!(code, 1);
    assert_eq!(
        message,
        "daemon stage 1: cannot resolve the executable to re-exec for stage 2: Failed to \
         determine the executable path to re-exec: no path"
    );
    assert_eq!(
        stage1_exit(Stage1Event::Stage2Spawned {
            exe: "\"/bin/app\"".to_string(),
            spawned: Err(io_error("ENOENT"))
        }),
        (1, "daemon stage 1: failed to re-exec stage 2 (\"/bin/app\"): ENOENT".to_string())
    );
}

#[test]
fn stage2_accepts_only_a_non_leader_in_the_first_stages_group() {
    let step = |pid, sid, pgid| run_as_daemon_stage2(Stage2Event::Topology { pid, sid, pgid });
    assert!(matches!(step(101, Some(100), 100), Stage2Step::VerifyPeer));
    for (pid, sid, pgid) in [
        (100, Some(100), 100),
        (101, Some(50), 101),
        (101, Some(50), 100),
        (101, Some(101), 100),
        (101, None, 100),
    ] {
        assert!(
            matches!(step(pid, sid, pgid), Stage2Step::Exit { code: 1, .. }),
            "{pid} {sid:?} {pgid}"
        );
    }
}

#[test]
fn stage2_failures_have_their_exit_codes() {
    assert!(matches!(run_as_daemon_stage2(Stage2Event::Started), Stage2Step::ReadTopology));
    let mismatch = creds_match((1, 1), (2, 2));
    assert!(matches!(
        run_as_daemon_stage2(Stage2Event::PeerVerified(mismatch)),
        Stage2Step::Exit { code: 1, message } if message.starts_with("daemon stage 2: channel peer")
    ));
    assert!(matches!(
        run_as_daemon_stage2(Stage2Event::PeerVerified(Ok(()))),
        Stage2Step::Claim
    ));
    assert!(matches!(
        run_as_daemon_stage2(Stage2Event::Claimed(Err(InheritedFdError::CloneFd {
            source: io_error("EMFILE")
        }))),
        Stage2Step::Exit { code: 2, .. }
    ));
    assert!(matches!(
        run_as_daemon_stage2(Stage2Event::Claimed(Ok(()))),
        Stage2Step::LeaveDirectory
    ));
    assert!(matches!(
        run_as_daemon_stage2(Stage2Event::DirectoryLeft(Ok(()))),
        Stage2Step::SendHandshake { warning: None }
    ));
    assert!(matches!(
        run_as_daemon_stage2(Stage2Event::DirectoryLeft(Err(io_error("EACCES")))),
        Stage2Step::SendHandshake { warning: Some(text) }
            if text == "daemon stage 2: warning: chdir(\"/\") failed, keeping inherited working \
                        directory: EACCES"
    ));
    assert!(matches!(
        run_as_daemon_stage2(Stage2Event::HandshakeSent(Ok(()))),
        Stage2Step::RunDaemon
    ));
    assert!(matches!(
        run_as_daemon_stage2(Stage2Event::HandshakeSent(Err(ChannelSendError::Desynchronized))),
        Stage2Step::Exit { code: 127, .. }
    ));
}

#[test]
fn daemon_child_startup_codes() {
    let exit = |event| match run_as_daemon_child(event) {
        ChildStep::Exit { code, message } => (code, message),
        other => panic!("expected an exit, got {other:?}"),
    };
    assert_eq!(
        exit(ChildEvent::Claimed(Err(InheritedFdsError::NotAPipe {
            fd: 3,
            label: "request-recv",
            st_mode: 0o140600,
        }))),
        (2, "daemon child: fd 3 (request-recv) is not a pipe (st_mode=0o140600).".to_string())
    );
    assert_eq!(
        exit(ChildEvent::SessionStarted(Err(sys_error("EPERM")))),
        (1, "daemon child: setsid() failed: EPERM".to_string())
    );
    assert_eq!(exit(ChildEvent::HandshakeSent(Err(ChannelSendError::Desynchronized))).0, 127);
    assert_eq!(
        exit(ChildEvent::PayloadReceived(Err(ChannelRecvError::Timeout))),
        (
            127,
            "daemon child: failed to receive bootstrap payload from parent: Timeout waiting for \
             a message on the channel"
                .to_string()
        )
    );
    assert_eq!(exit(ChildEvent::AckSent(Err(ChannelSendError::Desynchronized))).0, 127);
    assert!(matches!(run_as_daemon_child(ChildEvent::Started), ChildStep::Claim));
    assert!(matches!(
        run_as_daemon_child(ChildEvent::PayloadReceived(Ok(vec![1, 2]))),
        ChildStep::DecodePayload { bytes } if bytes == [1, 2]
    ));
    assert!(matches!(run_as_daemon_child(ChildEvent::AckSent(Ok(()))), ChildStep::RunDaemon));
}

/// Carry out a detach on a table of descriptors, where `None` is closed, 0 is
/// `/dev/null`, and other numbers are other files.
fn detach(fds: &mut Vec<Option<u32>>) -> Result<(), DetachStdioError> {
    let mut step = detach_stdio(DetachEvent::Started);
    loop {
        match step {
            DetachStep::OpenDevNull => {
                let fd = fds.iter().position(Option::is_none).unwrap();
                fds[fd] = Some(0);
                step = detach_stdio(DetachEvent::Opened(Ok(fd as i32)));
            }
            DetachStep::Relocate { fd, min } => {
                assert_eq!(min, 3);
                let new = 3 + fds[3..].iter().position(Option::is_none).unwrap();
                fds[new] = fds[fd as usize];
                step = detach_stdio(DetachEvent::Relocated { fd, relocated: Ok(new as i32) });
            }
            DetachStep::Duplicate { source, target } => {
                fds[target as usize] = fds[source as usize];
                step = detach_stdio(DetachEvent::Duplicated { source, target, result: Ok(()) });
            }
            DetachStep::Finish { fd } => {
                fds[fd as usize] = None;
                return Ok(());
            }
            DetachStep::Fail { err, .. } => return Err(err),
        }
    }
}

#[test]
fn detach_redirects_all_three_whichever_was_closed() {
    for closed in [None, Some(0), Some(1), Some(2)] {
        let mut fds = vec![Some(10), Some(11), Some(12), Some(13), None, None];
        if let Some(fd) = closed {
            fds[fd] = None;
        }
        detach(&mut fds).unwrap();
        assert_eq!(fds, [Some(0), Some(0), Some(0), Some(13), None, None], "closed: {closed:?}");
    }
}

#[test]
fn detach_errors_name_the_step() {
    let DetachStep::Fail { err, close } =
        detach_stdio(DetachEvent::Opened(Err(io_error("ENOENT"))))
    else {
        panic!("there is nothing to redirect to");
    };
    assert_eq!(err.message(), "Failed to open /dev/null while detaching daemon stdio: ENOENT");
    assert_eq!(close, None);
    let DetachStep::Fail { err, close } =
        detach_stdio(DetachEvent::Relocated { fd: 1, relocated: Err(io_error("EMFILE")) })
    else {
        panic!("the source stays on a standard descriptor");
    };
    assert_eq!(
        err.message(),
        "fcntl(F_DUPFD_CLOEXEC) failed relocating /dev/null off the std-fd range while \
         detaching daemon stdio: EMFILE"
    );
    assert_eq!(close, Some(1));
    let DetachStep::Fail { err, close } = detach_stdio(DetachEvent::Duplicated {
        source: 5,
        target: 1,
        result: Err(io_error("EBUSY")),
    }) else {
        panic!("a failed redirection ends the detach");
    };
    assert_eq!(err.message(), "dup2(/dev/null, 1) failed while detaching daemon stdio: EBUSY");
    assert_eq!(close, Some(5));
}
