use daemonizable::echo_app::args::{parse_args, ArgError, Args, Mode};
use daemonizable::echo_app::background::{
    background_actions, behavior_of, fork_failure, send_outcome, serve_echo, session_failure,
    BackgroundAction, Behavior, ServeEvent, ServeStep,
};
use daemonizable::echo_app::daemon::{
    answer_request, daemon_identity, run_daemon, DaemonEvent, DaemonStep,
};
use daemonizable::echo_app::foreground::{
    foreground_exit_code, foreground_record, run_foreground, ForegroundPlan,
};
use daemonizable::echo_app::guard::{
    ensure_open, guard_drop, guard_report, read_pid_file, EnsureOpenEvent, EnsureOpenStep,
    GuardStep, PidFileStep,
};
use daemonizable::echo_app::messages::{TestRequest, TestResponse};
use daemonizable::echo_app::preclosed::{
    preclosed_target, std_fd_fault, EXIT_NOT_DEV_NULL, EXIT_STILL_CLOSED,
};
use daemonizable::echo_app::report::{
    count_own_zombie_children, interleaved_report, is_process_name, many_report, parent_report,
    ProcEntry,
};
use daemonizable::echo_app::rounds::{
    checked_request_value, concurrent_spawn_failure, request_value, roundtrip, run_parent, run_spawn_interleaved,
    spawn_many_concurrent, spawn_many_sequential, Joined, ManyEvent, ManyStep, PairEvent, PairStep,
    ParentEvent, ParentStep, Peer, RoundtripEvent, RoundtripStep,
};
use daemonizable::error::{
    ChannelRecvError, ChannelSendError, Errno, IoError, IoErrorKind, SpawnDaemonError, SysError,
};
use daemonizable::stdio::DetachStdioError;
use daemonizable::text::{decimal_text, numeral_text, parse_i32, parse_unsigned, signed_decimal_text};
use daemonizable::time::{Moment, TimeSpan};

fn args(list: &[&str]) -> Vec<String> {
    list.iter().map(|s| s.to_string()).collect()
}

fn io_error(message: &str) -> IoError {
    IoError {
        kind: IoErrorKind::Other,
        raw_os_error: None,
        message: message.to_string(),
        debug: format!("Custom {{ kind: Other, error: {message:?} }}"),
    }
}

fn response(v: i32, pid: u32) -> TestResponse {
    TestResponse {
        v,
        daemon_cwd: "/".to_string(),
        marker: "removed".to_string(),
        argv1: "empty".to_string(),
        pid,
        sid: pid as i32 - 1,
    }
}

#[test]
fn arguments_select_the_mode() {
    let parse = |list: &[&str]| parse_args(&args(list)).unwrap();
    assert_eq!(parse(&[]), Args { mode: Mode::Foreground, outfile: None });
    assert_eq!(
        parse(&["--daemonize", "--outfile", "/tmp/x"]),
        Args { mode: Mode::Daemonize, outfile: Some("/tmp/x".to_string()) }
    );
    assert_eq!(parse(&["--spawn-interleaved"]).mode, Mode::Interleaved);
    assert_eq!(
        parse(&["--spawn-many", "3"]).mode,
        Mode::SpawnMany { count: 3, concurrent: false }
    );
    assert_eq!(
        parse(&["--concurrent", "--spawn-many", "+05", "--daemonize"]).mode,
        Mode::SpawnMany { count: 5, concurrent: true }
    );
    assert_eq!(parse(&["--concurrent"]).mode, Mode::Foreground);
    assert_eq!(parse(&["--daemonize", "--spawn-interleaved"]).mode, Mode::Interleaved);
}

#[test]
fn refused_arguments_have_their_messages() {
    let refuse = |list: &[&str]| parse_args(&args(list)).unwrap_err();
    assert_eq!(refuse(&["--spawn-many"]).message(), "--spawn-many needs a value");
    assert_eq!(
        refuse(&["--spawn-many", "x\"1"]).message(),
        "--spawn-many needs an integer, got \"x\\\"1\""
    );
    assert_eq!(refuse(&["--spawn-many", "-1"]), ArgError::NotAnInteger("-1".to_string()));
    assert_eq!(refuse(&["--spawn-many", ""]), ArgError::NotAnInteger(String::new()));
    assert_eq!(
        refuse(&["--spawn-many", "18446744073709551616"]),
        ArgError::NotAnInteger("18446744073709551616".to_string())
    );
    assert_eq!(
        refuse(&["--spawn-many", "0"]).message(),
        "--spawn-many needs a positive count"
    );
    assert_eq!(refuse(&["--outfile"]).message(), "--outfile needs a value");
    for sentinel in ["__daemonizable-stage1", "__daemonizable-daemon"] {
        assert_eq!(refuse(&[sentinel]).message(), format!("unknown argument: {sentinel}"));
    }
}

#[test]
fn foreground_plan_and_exit_codes() {
    assert!(matches!(
        run_foreground(parse_args(&args(&["--bogus"]))),
        ForegroundPlan::Refuse { code: 2, message } if message == "unknown argument: --bogus"
    ));
    assert!(matches!(
        run_foreground(parse_args(&args(&["--daemonize"]))),
        ForegroundPlan::NoOutfile
    ));
    assert!(matches!(
        run_foreground(parse_args(&args(&["--outfile", "out"]))),
        ForegroundPlan::Run { mode: Mode::Foreground, outfile } if outfile == "out"
    ));
    assert_eq!(foreground_record(), "foreground-ran");
    assert_eq!(foreground_exit_code(&Ok(())), 0);
    assert_eq!(foreground_exit_code(&Err("spawn failed".to_string())), 1);
}

#[test]
fn request_values_are_fingerprints() {
    assert_eq!(request_value(0), 100);
    assert_eq!(request_value(1), 200);
    assert_eq!(request_value(4), 500);
    assert_eq!(request_value(21_474_835), 2_147_483_600);
}

#[test]
fn messages_round_trip() {
    for v in [0, 1, -1, 42, i32::MAX, i32::MIN] {
        let bytes = TestRequest { v }.encode().unwrap();
        assert_eq!(TestRequest::decode(&bytes).unwrap(), TestRequest { v });
    }
    // One zigzag varint.
    assert_eq!(TestRequest { v: 42 }.encode().unwrap(), [84]);
    let sent = response(43, 4711);
    let bytes = sent.encode().unwrap();
    assert_eq!(TestResponse::decode(&bytes).unwrap(), sent);
    // What is wrong with the bytes is said in the codec's own words.
    assert_eq!(
        TestRequest::decode(&[]).unwrap_err().message,
        postcard::Error::DeserializeUnexpectedEnd.to_string()
    );
    assert_eq!(
        TestRequest::decode(&[0xff, 0xff, 0xff, 0xff, 0xff]).unwrap_err().message,
        postcard::Error::DeserializeBadVarint.to_string()
    );
    assert_eq!(
        TestResponse::decode(&[2, 1, 0xff]).unwrap_err().message,
        postcard::Error::DeserializeBadUtf8.to_string()
    );
    assert_eq!(
        TestResponse::decode(&[2, 1]).unwrap_err().message,
        postcard::Error::DeserializeUnexpectedEnd.to_string()
    );
}

#[test]
fn daemon_echoes_until_the_parent_is_gone() {
    let identity = daemon_identity(Some("/".to_string()), false, false, 7, 6);
    assert!(matches!(
        run_daemon(&identity, false, DaemonEvent::Started),
        DaemonStep::NextRequest
    ));
    let request = TestRequest { v: 42 }.encode().unwrap();
    let DaemonStep::Answer(answer) = run_daemon(&identity, false, DaemonEvent::Requested(Ok(request)))
    else {
        panic!("a request is answered");
    };
    assert_eq!(TestResponse::decode(&answer.unwrap()).unwrap(), response(43, 7));
    assert!(matches!(
        run_daemon(&identity, false, DaemonEvent::Answered(Ok(()))),
        DaemonStep::NextRequest
    ));
    assert!(matches!(
        run_daemon(&identity, false, DaemonEvent::Requested(Err(ChannelRecvError::SenderClosed))),
        DaemonStep::Exit { code: 0, report: None }
    ));
    assert!(matches!(
        run_daemon(&identity, false, DaemonEvent::Answered(Err(ChannelSendError::Desynchronized))),
        DaemonStep::Panic { message } if message == "daemon: failed to send response: Desynchronized"
    ));
    let failed = ChannelSendError::Io(io_error("EIO"));
    assert!(matches!(
        run_daemon(&identity, false, DaemonEvent::Answered(Err(failed))),
        DaemonStep::Panic { message }
            if message == "daemon: failed to send response: \
                           Io(Custom { kind: Other, error: \"EIO\" })"
    ));
    let overflowing = TestRequest { v: i32::MAX }.encode().unwrap();
    assert!(matches!(
        run_daemon(&identity, false, DaemonEvent::Requested(Ok(overflowing))),
        DaemonStep::Panic { .. }
    ));
    // An undecodable request ends the loop like any other receive error.
    assert!(matches!(
        run_daemon(&identity, false, DaemonEvent::Requested(Ok(Vec::new()))),
        DaemonStep::Exit { code: 0, .. }
    ));
}

#[test]
fn daemon_with_a_sentinel_outlives_its_parent() {
    let identity = daemon_identity(None, true, true, 7, 6);
    assert_eq!(identity.daemon_cwd, "<unknown>");
    assert_eq!(identity.marker, "set");
    assert_eq!(identity.argv1, "present");
    assert!(matches!(
        run_daemon(&identity, true, DaemonEvent::Requested(Err(ChannelRecvError::SenderClosed))),
        DaemonStep::Panic { message }
            if message == "daemon: expected the parent's request: SenderClosed"
    ));
    assert!(matches!(
        run_daemon(&identity, true, DaemonEvent::Requested(Ok(Vec::new()))),
        DaemonStep::Panic { message }
            if message == "daemon: expected the parent's request: Decode(DeserializeUnexpectedEnd)"
    ));
    assert!(matches!(
        answer_request(&identity, true, Err(ChannelRecvError::Timeout)),
        DaemonStep::Panic { message } if message == "daemon: expected the parent's request: Timeout"
    ));
    assert!(matches!(
        run_daemon(&identity, true, DaemonEvent::Answered(Ok(()))),
        DaemonStep::Detach
    ));
    let failed = DetachStdioError::OpenDevNull(io_error("ENOENT"));
    assert!(matches!(
        run_daemon(&identity, true, DaemonEvent::Detached(Err(failed))),
        DaemonStep::Exit { code: 1, report: Some(text) }
            if text.starts_with("daemon: detach_stdio failed: Failed to open /dev/null")
    ));
    assert!(matches!(
        run_daemon(&identity, true, DaemonEvent::Detached(Ok(()))),
        DaemonStep::Tick(1)
    ));
    assert!(matches!(run_daemon(&identity, true, DaemonEvent::Ticked(1)), DaemonStep::Tick(2)));
}

#[test]
fn parent_exchanges_one_message() {
    assert!(matches!(run_parent(ParentEvent::Started), ParentStep::Spawn));
    let ParentStep::Send(Ok(bytes)) = run_parent(ParentEvent::Spawned(Ok(()))) else {
        panic!("the request follows the spawn");
    };
    assert_eq!(TestRequest::decode(&bytes).unwrap().v, 42);
    assert!(matches!(run_parent(ParentEvent::Sent(Ok(()))), ParentStep::Receive));
    let answer = response(43, 4711).encode();
    let ParentStep::CountZombies(got) = run_parent(ParentEvent::Received(Ok(answer.unwrap())))
    else {
        panic!("the answer is recorded");
    };
    let ParentStep::Write(text) = run_parent(ParentEvent::Counted { response: got, zombies: 0 })
    else {
        panic!("the record is written");
    };
    assert_eq!(
        text,
        "parent-got:43 cwd:/ marker:removed argv1:empty sid:4710 pid:4711 zombies:0"
    );
    assert!(matches!(run_parent(ParentEvent::Written(Ok(()))), ParentStep::Done(Ok(()))));
}

#[test]
fn parent_reports_what_failed() {
    let fail = |event| match run_parent(event) {
        ParentStep::Done(Err(text)) => text,
        other => panic!("expected a failure, got {other:?}"),
    };
    assert_eq!(
        fail(ParentEvent::Spawned(Err(SpawnDaemonError::ExePath(io_error("none"))))),
        "spawn_daemon failed: Failed to determine the executable path to re-exec: none"
    );
    assert_eq!(
        fail(ParentEvent::Sent(Err(ChannelSendError::Io(io_error("EPIPE"))))),
        "send_request failed: Failed to write to channel: EPIPE"
    );
    assert_eq!(
        fail(ParentEvent::Received(Err(ChannelRecvError::SenderClosed))),
        "recv_response failed: Sender closed the channel"
    );
    assert!(fail(ParentEvent::Received(Ok(Vec::new())))
        .starts_with("recv_response failed: Failed to decode message: "));
    assert_eq!(
        fail(ParentEvent::Written(Err(io_error("ENOSPC")))),
        "failed to write outfile: ENOSPC"
    );
}

#[test]
fn many_daemons_are_alive_before_any_is_asked() {
    let mut log: Vec<String> = Vec::new();
    let mut sent: i32 = 0;
    let mut step = spawn_many_sequential(3);
    let results = loop {
        match step {
            ManyStep::Spawn { run, idx } => {
                log.push(format!("spawn {idx}"));
                step = run.next(ManyEvent::Spawned(Ok(())));
            }
            ManyStep::Send { run, idx, encoded } => {
                sent = TestRequest::decode(&encoded.unwrap()).unwrap().v;
                log.push(format!("send {idx} {sent}"));
                step = run.next(ManyEvent::Sent(Ok(())));
            }
            ManyStep::Receive { run, idx } => {
                let answer = response(sent + 1, 1000 + idx as u32).encode().unwrap();
                step = run.next(ManyEvent::Received(Ok(answer)));
            }
            ManyStep::Done(result) => break result.unwrap(),
            ManyStep::Panic { message } => panic!("{message}"),
        }
    };
    assert_eq!(
        log,
        ["spawn 0", "spawn 1", "spawn 2", "send 0 100", "send 1 200", "send 2 300"]
    );
    assert_eq!(
        many_report(&results, 0),
        "idx:0 got:101 pid:1000 sid:999 cwd:/ marker:removed\n\
         idx:1 got:201 pid:1001 sid:1000 cwd:/ marker:removed\n\
         idx:2 got:301 pid:1002 sid:1001 cwd:/ marker:removed\n\
         zombies:0\n"
    );
}

#[test]
fn daemon_without_a_number_gives_up() {
    assert!(matches!(spawn_many_sequential(0), ManyStep::Done(Ok(results)) if results.is_empty()));
    assert_eq!(checked_request_value(21_474_835), Ok(2_147_483_600));
    assert_eq!(
        checked_request_value(21_474_836),
        Err("attempt to multiply with overflow".to_string())
    );
    assert_eq!(
        checked_request_value(i32::MAX as usize),
        Err("attempt to add with overflow".to_string())
    );
    let ManyStep::Spawn { run, idx: 0 } = spawn_many_sequential(usize::MAX) else {
        panic!("any number of daemons is spawned one by one");
    };
    let ManyStep::Spawn { idx: 1, .. } = run.next(ManyEvent::Spawned(Ok(()))) else {
        panic!("a second spawn follows the first");
    };
}

#[test]
fn many_daemons_report_what_failed() {
    let ManyStep::Spawn { run, .. } = spawn_many_sequential(2) else {
        panic!("a spawn comes first");
    };
    let ManyStep::Spawn { run, idx } = run.next(ManyEvent::Spawned(Ok(()))) else {
        panic!("another spawn comes second");
    };
    assert_eq!(idx, 1);
    let failed = SpawnDaemonError::ExePath(io_error("none"));
    let ManyStep::Done(Err(text)) = run.next(ManyEvent::Spawned(Err(failed))) else {
        panic!("a failed spawn ends the exchange");
    };
    assert_eq!(
        text,
        "spawn_daemon #1 failed: Failed to determine the executable path to re-exec: none"
    );
}

#[test]
fn concurrent_results_are_put_in_order() {
    let joined = vec![
        Joined::Answered(2, response(301, 12)),
        Joined::Answered(0, response(101, 10)),
        Joined::Answered(1, response(201, 11)),
    ];
    let results = spawn_many_concurrent(joined).unwrap();
    let order: Vec<(usize, i32)> = results.iter().map(|(idx, r)| (*idx, r.v)).collect();
    assert_eq!(order, [(0, 101), (1, 201), (2, 301)]);
    let joined = vec![
        Joined::Answered(0, response(101, 10)),
        Joined::Failed("first".to_string()),
        Joined::Panicked,
    ];
    assert_eq!(spawn_many_concurrent(joined).unwrap_err(), "first");
    assert_eq!(
        spawn_many_concurrent(vec![Joined::Panicked]).unwrap_err(),
        "a concurrent spawn thread panicked"
    );
    assert_eq!(
        concurrent_spawn_failure(4, &SpawnDaemonError::ExePath(io_error("none"))),
        "concurrent spawn_daemon #4 failed: Failed to determine the executable path to re-exec: \
         none"
    );
}

#[test]
fn round_trip_sends_its_number_and_reports_what_failed() {
    let RoundtripStep::Send(encoded) = roundtrip(300, RoundtripEvent::Started) else {
        panic!("the request comes first");
    };
    assert_eq!(TestRequest::decode(&encoded.unwrap()).unwrap().v, 300);
    assert!(matches!(roundtrip(300, RoundtripEvent::Sent(Ok(()))), RoundtripStep::Receive));
    let answer = response(301, 12).encode().unwrap();
    assert!(matches!(
        roundtrip(300, RoundtripEvent::Received(Ok(answer))),
        RoundtripStep::Done(Ok(answer)) if answer.v == 301 && answer.pid == 12
    ));
    assert!(matches!(
        roundtrip(300, RoundtripEvent::Sent(Err(ChannelSendError::Desynchronized))),
        RoundtripStep::Done(Err(text)) if text == "send_request failed: Sender desynchronized by \
            a prior failed send; connection must be abandoned"
    ));
    assert!(matches!(
        roundtrip(300, RoundtripEvent::Received(Err(ChannelRecvError::Timeout))),
        RoundtripStep::Done(Err(text)) if text
            == "recv_response failed: Timeout waiting for a message on the channel"
    ));
}

#[test]
fn interleaved_rounds_do_not_cross() {
    let mut pending: [Vec<i32>; 2] = [Vec::new(), Vec::new()];
    let mut log: Vec<String> = Vec::new();
    let slot = |peer: Peer| if peer == Peer::A { 0usize } else { 1 };
    let mut step = run_spawn_interleaved();
    let text = loop {
        match step {
            PairStep::Spawn { run, peer } => {
                log.push(format!("spawn {peer:?}"));
                step = run.next(PairEvent::Spawned(Ok(())));
            }
            PairStep::Send { run, peer, encoded } => {
                let v = TestRequest::decode(&encoded.unwrap()).unwrap().v;
                log.push(format!("send {peer:?} {v}"));
                pending[slot(peer)].push(v);
                step = run.next(PairEvent::Sent(Ok(())));
            }
            PairStep::Receive { run, peer } => {
                log.push(format!("receive {peer:?}"));
                let v = pending[slot(peer)].remove(0);
                let answer = response(v + 1, 10 + slot(peer) as u32).encode().unwrap();
                step = run.next(PairEvent::Received(Ok(answer)));
            }
            PairStep::Record { a1, a2, b1, b2 } => {
                break interleaved_report(&a1, &a2, &b1, &b2, 0);
            }
            PairStep::Failed(text) => panic!("{text}"),
        }
    };
    assert_eq!(
        log,
        [
            "spawn A", "spawn B", "send A 100", "send B 200", "receive A", "receive B",
            "send B 400", "send A 300", "receive B", "receive A",
        ]
    );
    assert_eq!(
        text,
        "tag:A got1:101 got2:301 pid1:10 pid2:10 sid:9\n\
         tag:B got1:201 got2:401 pid1:11 pid2:11 sid:10\n\
         zombies:0\n"
    );
}

#[test]
fn interleaved_failure_names_the_action() {
    let PairStep::Spawn { run, .. } = run_spawn_interleaved() else {
        panic!("a spawn comes first");
    };
    let PairStep::Spawn { run, .. } = run.next(PairEvent::Spawned(Ok(()))) else {
        panic!("another spawn comes second");
    };
    let PairStep::Send { run, .. } = run.next(PairEvent::Spawned(Ok(()))) else {
        panic!("a send comes third");
    };
    let PairStep::Failed(text) = run.next(PairEvent::Sent(Err(ChannelSendError::Desynchronized)))
    else {
        panic!("a failed send ends the exchange");
    };
    assert_eq!(
        text,
        "A r1 send failed: Sender desynchronized by a prior failed send; connection must be \
         abandoned"
    );
}

fn entry(name: &str, status: &str) -> ProcEntry {
    ProcEntry { name: Some(name.to_string()), status: Some(status.to_string()) }
}

#[test]
fn zombie_children_are_counted() {
    let zombie = "Name:\tsleep\nState:\tZ (zombie)\nTgid:\t12\nPPid:\t99\n";
    assert_eq!(count_own_zombie_children(99, &vec![entry("12", zombie)]), 1);
    let entries = vec![
        entry("12", zombie),
        entry("13", "State:\tS (sleeping)\nPPid:\t99\n"),
        entry("14", "State:\tZ (zombie)\nPPid:\t98\n"),
        entry("self", zombie),
        entry("", zombie),
        entry("15", "State: Z\r\nPPid:  99  \r\n"),
        entry("16", "PPid:\t99\nState:\tZ"),
        entry("17", "State:\tZ\nPPid:\t99\nPPid:\tnone\n"),
        entry("18", "State:\tZ\nState:\tR\nPPid:\t99\n"),
        entry("19", " State:\tZ\nPPid:\t99\n"),
        ProcEntry { name: None, status: Some(zombie.to_string()) },
        ProcEntry { name: Some("20".to_string()), status: None },
    ];
    assert_eq!(count_own_zombie_children(99, &entries), 3);
    assert_eq!(count_own_zombie_children(99, &Vec::new()), 0);
    assert!(is_process_name("1"));
    assert!(!is_process_name("1a"));
}

#[test]
fn parent_report_shows_negative_numbers() {
    let mut r = response(-5, 3);
    r.sid = -1;
    assert_eq!(
        parent_report(&r, 2),
        "parent-got:-5 cwd:/ marker:removed argv1:empty sid:-1 pid:3 zombies:2"
    );
}

#[test]
fn pid_file_is_read_by_content() {
    let at = |nanos| Moment { nanos };
    let timeout = TimeSpan::from_secs(5);
    let look = |contents, now| read_pid_file(contents, at(0), now, timeout);
    assert_eq!(look(Some(" 4711\n"), at(0)), PidFileStep::Found(4711));
    assert_eq!(look(Some("4711"), at(9_000_000_000)), PidFileStep::Found(4711));
    assert_eq!(look(Some(""), at(1)), PidFileStep::Pause);
    assert_eq!(look(None, at(4_999_999_999)), PidFileStep::Pause);
    assert_eq!(look(None, at(5_000_000_000)), PidFileStep::TimedOut);
    assert_eq!(look(Some("abc"), at(6_000_000_000)), PidFileStep::TimedOut);
}

#[test]
fn guard_escalates_after_the_grace_period() {
    let at = |nanos| Moment { nanos };
    assert_eq!(guard_drop(false, true, at(0), at(9_000_000_000)), GuardStep::Done);
    assert_eq!(guard_drop(true, true, at(0), at(1_999_999_999)), GuardStep::Pause);
    assert_eq!(guard_drop(true, true, at(0), at(2_000_000_000)), GuardStep::Kill { reap: true });
    assert_eq!(
        guard_drop(true, false, at(5), at(2_000_000_005)),
        GuardStep::Kill { reap: false }
    );
    assert_eq!(
        guard_report(4711),
        "daemon 4711 did not exit on SIGTERM within 2s; sending SIGKILL"
    );
}

#[test]
fn descriptor_is_parked_where_it_is_closed() {
    assert_eq!(ensure_open(1, EnsureOpenEvent::IsOpen(true)), EnsureOpenStep::Done(true));
    assert_eq!(ensure_open(1, EnsureOpenEvent::IsOpen(false)), EnsureOpenStep::Open);
    assert_eq!(ensure_open(1, EnsureOpenEvent::Opened(None)), EnsureOpenStep::Done(false));
    assert_eq!(ensure_open(1, EnsureOpenEvent::Opened(Some(1))), EnsureOpenStep::Done(true));
    assert_eq!(
        ensure_open(1, EnsureOpenEvent::Opened(Some(5))),
        EnsureOpenStep::Move { source: 5 }
    );
    assert_eq!(ensure_open(1, EnsureOpenEvent::Moved(false)), EnsureOpenStep::Done(false));
}

#[test]
fn numbers_and_their_texts() {
    let chars = |s: &str| s.chars().collect::<Vec<char>>();
    for s in ["0", "7", "+12", "007", "4294967295", "4294967296", "-1", "", "+", "1 ", "\u{661}"] {
        assert_eq!(
            parse_unsigned(&chars(s), u32::MAX as u64),
            s.parse::<u32>().ok().map(u64::from),
            "{s:?}"
        );
        assert_eq!(parse_i32(&chars(s)), s.parse::<i32>().ok(), "{s:?}");
    }
    for s in ["-2147483648", "-2147483649", "2147483647", "2147483648", "-", "--1", "-0"] {
        assert_eq!(parse_i32(&chars(s)), s.parse::<i32>().ok(), "{s:?}");
    }
    for n in [0u64, 9, 10, 1_048_576, u64::MAX] {
        assert_eq!(decimal_text(n), n.to_string());
        assert_eq!(numeral_text(n, 8), format!("{n:o}"));
    }
    for n in [0i64, -1, i64::MIN, i64::MAX] {
        assert_eq!(signed_decimal_text(n), n.to_string());
    }
}

#[test]
fn helper_parts_are_found_by_name() {
    assert_eq!(behavior_of(None), Ok(Behavior::Echo));
    assert_eq!(behavior_of(Some("echo")), Ok(Behavior::Echo));
    assert_eq!(behavior_of(Some("sentinel_loop")), Ok(Behavior::SentinelLoop));
    assert_eq!(behavior_of(Some("write_pid_then_exit")), Ok(Behavior::WritePidThenExit));
    assert_eq!(
        behavior_of(Some("Echo")).unwrap_err(),
        "daemon: unknown DAEMONIZABLE_TEST_BEHAVIOR=\"Echo\""
    );
    assert_eq!(
        behavior_of(Some("")).unwrap_err(),
        "daemon: unknown DAEMONIZABLE_TEST_BEHAVIOR=\"\""
    );
}

#[test]
fn helper_parts_have_their_plans() {
    assert_eq!(background_actions(Behavior::Echo), [BackgroundAction::Serve]);
    assert_eq!(
        background_actions(Behavior::ExitAfterRequest),
        [BackgroundAction::AwaitRequest, BackgroundAction::Exit]
    );
    assert_eq!(
        background_actions(Behavior::DoubleForkWrongHandshakeThenIdle),
        [
            BackgroundAction::StartSession,
            BackgroundAction::Fork,
            BackgroundAction::WritePid,
            BackgroundAction::SendWrongHandshake,
            BackgroundAction::Idle,
        ]
    );
    assert_eq!(
        background_actions(Behavior::SendAfterParentExit),
        [
            BackgroundAction::WritePid,
            BackgroundAction::RestoreSigpipe,
            BackgroundAction::AwaitSpawnerExit,
            BackgroundAction::SendAndRecord,
            BackgroundAction::Exit,
        ]
    );
}

#[test]
fn helper_echo_tells_the_end_from_a_failure() {
    assert!(matches!(serve_echo(ServeEvent::Started), ServeStep::NextRequest));
    let request = TestRequest { v: 7 }.encode().unwrap();
    let ServeStep::Answer(Ok(bytes)) = serve_echo(ServeEvent::Requested(Ok(request))) else {
        panic!("a request is answered");
    };
    assert_eq!(TestRequest::decode(&bytes).unwrap(), TestRequest { v: 8 });
    assert!(matches!(serve_echo(ServeEvent::Answered(Ok(()))), ServeStep::NextRequest));
    assert!(matches!(
        serve_echo(ServeEvent::Answered(Err(ChannelSendError::Desynchronized))),
        ServeStep::Panic { message } if message == "daemon: failed to send response: Desynchronized"
    ));
    assert!(matches!(
        serve_echo(ServeEvent::Requested(Err(ChannelRecvError::SenderClosed))),
        ServeStep::Exit { code: 0, report: None }
    ));
    assert!(matches!(
        serve_echo(ServeEvent::Requested(Err(ChannelRecvError::Desynchronized))),
        ServeStep::Exit { code: 1, report: Some(text) }
            if text.starts_with("daemon: echo receive failed: Receiver desynchronized")
    ));
    assert!(matches!(
        serve_echo(ServeEvent::Requested(Ok(Vec::new()))),
        ServeStep::Exit { code: 1, report: Some(text) }
            if text.starts_with("daemon: echo receive failed: Failed to decode message: ")
    ));
    let last = TestRequest { v: i32::MAX }.encode().unwrap();
    assert!(matches!(serve_echo(ServeEvent::Requested(Ok(last))), ServeStep::Panic { .. }));
}

#[test]
fn send_to_a_parent_that_is_gone_is_recorded() {
    let broken = IoError {
        kind: IoErrorKind::BrokenPipe,
        raw_os_error: Some(32),
        message: "Broken pipe".to_string(),
        debug: "Os { code: 32, kind: BrokenPipe, message: \"Broken pipe\" }".to_string(),
    };
    assert_eq!(send_outcome(&Err(ChannelSendError::Io(broken))), "send:broken_pipe");
    assert_eq!(send_outcome(&Ok(())), "send:unexpected_success");
    assert_eq!(
        send_outcome(&Err(ChannelSendError::Io(io_error("EIO")))),
        "send:unexpected_error:Io(Custom { kind: Other, error: \"EIO\" })"
    );
    assert_eq!(
        send_outcome(&Err(ChannelSendError::Desynchronized)),
        "send:unexpected_error:Desynchronized"
    );
    let denied = SysError { errno: Errno::Other(1), error: io_error("EPERM") };
    assert_eq!(session_failure(&denied), "daemon: setsid failed: EPERM");
    assert_eq!(fork_failure(&io_error("EAGAIN")), "daemon: fork failed: EAGAIN");
}

#[test]
fn preclosed_check_knows_dev_null() {
    assert_eq!(preclosed_target(Some("0")), Some(0));
    assert_eq!(preclosed_target(Some("+2")), Some(2));
    for arg in [None, Some("3"), Some("-1"), Some(""), Some("two")] {
        assert_eq!(preclosed_target(arg), None);
    }
    assert_eq!(std_fd_fault(Some((0o020666, 259)), 259), None);
    assert_eq!(std_fd_fault(Some((0o020620, 34816)), 259), Some(EXIT_NOT_DEV_NULL));
    assert_eq!(std_fd_fault(Some((0o100644, 259)), 259), Some(EXIT_NOT_DEV_NULL));
    assert_eq!(std_fd_fault(None, 259), Some(EXIT_STILL_CLOSED));
}
