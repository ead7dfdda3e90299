use vox_verified::harness::{cross_language_supported, extra_env_description, scenario_timeout_message, ws_url};
use vox_verified::handshake::Parity;
use vox_verified::harness::{
    classify_stdout_line, inproc_settings, server_listen_check, subject_cmd_override, subject_launch,
    transport_from_setting, RustTransport, StdoutLine, SubjectLanguage, SubjectLaunch, SubjectSpec,
    SubjectTestTransport,
};

#[test]
fn spec_constructors() {
    let s = SubjectSpec::tcp(SubjectLanguage::Swift);
    assert_eq!(s, SubjectSpec { language: SubjectLanguage::Swift, transport: SubjectTestTransport::Tcp });
    let s = SubjectSpec::ws(SubjectLanguage::TypeScript);
    assert_eq!(s.transport, SubjectTestTransport::Ws);
    assert_ne!(RustTransport::Mem, RustTransport::Tcp);
}

#[test]
fn transport_setting_is_case_insensitive() {
    assert_eq!(transport_from_setting(Some("ws")), SubjectTestTransport::Ws);
    assert_eq!(transport_from_setting(Some("WS")), SubjectTestTransport::Ws);
    assert_eq!(transport_from_setting(Some("wS")), SubjectTestTransport::Ws);
    assert_eq!(transport_from_setting(Some("tcp")), SubjectTestTransport::Tcp);
    assert_eq!(transport_from_setting(Some("wss")), SubjectTestTransport::Tcp);
    assert_eq!(transport_from_setting(None), SubjectTestTransport::Tcp);
}

#[test]
fn server_listen_runs_over_tcp_only() {
    assert!(server_listen_check(SubjectSpec::tcp(SubjectLanguage::Rust)).is_ok());
    assert_eq!(
        server_listen_check(SubjectSpec::ws(SubjectLanguage::Rust)).unwrap_err(),
        "server-listen mode is only supported for TCP transport"
    );
}

#[test]
fn scripts_run_through_the_shell() {
    assert!(matches!(subject_launch("./typescript/subject/subject-ts.sh"), SubjectLaunch::Shell(c) if c == "./typescript/subject/subject-ts.sh"));
    assert!(matches!(subject_launch("/bin/subject-rust"), SubjectLaunch::Direct(c) if c == "/bin/subject-rust"));
    assert!(matches!(subject_launch("sh"), SubjectLaunch::Direct(_)));
    assert!(matches!(subject_launch(".sh"), SubjectLaunch::Shell(_)));
}

#[test]
fn stdout_lines() {
    assert!(matches!(classify_stdout_line("LISTEN_ADDR=127.0.0.1:4000\n"), StdoutLine::ListenAddr(a) if a == "127.0.0.1:4000"));
    assert!(matches!(classify_stdout_line("  LISTEN_ADDR=h:1  "), StdoutLine::ListenAddr(a) if a == "h:1"));
    assert!(matches!(classify_stdout_line(""), StdoutLine::Closed));
    assert!(matches!(classify_stdout_line("  starting up\n"), StdoutLine::Log(t) if t == "starting up"));
    assert!(matches!(classify_stdout_line("\n"), StdoutLine::Log(t) if t.is_empty()));
}

#[test]
fn subject_command_override() {
    assert_eq!(subject_cmd_override(Some("./run.sh".to_string())), Some("./run.sh".to_string()));
    assert_eq!(subject_cmd_override(Some("   ".to_string())), None);
    assert_eq!(subject_cmd_override(None), None);
}

#[test]
fn in_process_settings() {
    let s = inproc_settings(Parity::Even);
    assert_eq!(s.parity, Parity::Even);
    assert_eq!(s.max_concurrent_requests, 64);
    assert_eq!(s.initial_channel_credit, 16);
}

#[test]
fn logging_helpers() {
    assert_eq!(ws_url(8080), "ws://127.0.0.1:8080/");
    assert_eq!(extra_env_description(&[]), "<none>");
    assert_eq!(
        extra_env_description(&[("SUBJECT_MODE", "client"), ("CLIENT_SCENARIO", "echo")]),
        "SUBJECT_MODE=client CLIENT_SCENARIO=echo"
    );
    assert!(cross_language_supported(SubjectSpec::tcp(SubjectLanguage::Rust), SubjectSpec::tcp(SubjectLanguage::Swift)));
    assert!(!cross_language_supported(SubjectSpec::tcp(SubjectLanguage::Rust), SubjectSpec::ws(SubjectLanguage::Swift)));
    assert_eq!(scenario_timeout_message("echo", false), "subject client scenario `echo` timed out");
    assert_eq!(scenario_timeout_message("echo", true), "subject client scenario (ws) `echo` timed out");
}

use vox_verified::harness::{
    subject_wait_step, SubjectWaitAction, SubjectWaitEvent, SUBJECT_CONNECT_DEADLINE_NANOS,
    SUBJECT_WAIT_HEARTBEAT_NANOS,
};

fn fail_of(a: SubjectWaitAction) -> (Option<String>, String) {
    match a {
        SubjectWaitAction::Fail { terminate, message } => (terminate, message),
        _ => panic!("expected the wait to fail"),
    }
}

#[test]
fn subject_wait_timings() {
    assert_eq!(SUBJECT_CONNECT_DEADLINE_NANOS, 5_000_000_000);
    assert_eq!(SUBJECT_WAIT_HEARTBEAT_NANOS, 500_000_000);
}

#[test]
fn subject_wait_decisions() {
    let addr = "127.0.0.1:4000";
    assert!(matches!(subject_wait_step(7, addr, SubjectWaitEvent::Accepted), SubjectWaitAction::Connected));
    let (t, m) = fail_of(subject_wait_step(7, addr, SubjectWaitEvent::AcceptFailed { error: "boom".into() }));
    assert_eq!((t.as_deref(), m.as_str()), (Some("TCP accept failed"), "accept: boom"));
    let (t, m) = fail_of(subject_wait_step(7, addr, SubjectWaitEvent::Exited { status: "exit status: 1".into() }));
    assert_eq!((t, m.as_str()), (None, "subject exited before connecting: exit status: 1"));
    let (t, m) = fail_of(subject_wait_step(7, addr, SubjectWaitEvent::WaitFailed { error: "gone".into() }));
    assert_eq!((t, m.as_str()), (None, "wait on subject process: gone"));
    let (t, m) = fail_of(subject_wait_step(
        42,
        addr,
        SubjectWaitEvent::DeadlinePassed { exited: Ok(None), elapsed: "5.001s".into() },
    ));
    assert_eq!(t.as_deref(), Some("subject did not connect within 5s"));
    assert_eq!(m, "subject did not connect within 5s (pid=42, addr=127.0.0.1:4000, elapsed=5.001s)");
    let (t, m) = fail_of(subject_wait_step(
        42,
        addr,
        SubjectWaitEvent::DeadlinePassed { exited: Ok(Some("exit status: 2".into())), elapsed: String::new() },
    ));
    assert_eq!((t, m.as_str()), (None, "subject exited before connecting: exit status: 2"));
    match subject_wait_step(42, addr, SubjectWaitEvent::Heartbeat { exited: Ok(None), elapsed: "1.5s".into() }) {
        SubjectWaitAction::KeepWaiting { log } => {
            assert_eq!(log, "[subject:42] waiting for tcp connect to 127.0.0.1:4000 (elapsed=1.5s)")
        }
        _ => panic!("expected to keep waiting"),
    }
    let (t, m) = fail_of(subject_wait_step(
        42,
        addr,
        SubjectWaitEvent::Heartbeat { exited: Ok(Some("signal: 9".into())), elapsed: String::new() },
    ));
    assert_eq!((t, m.as_str()), (None, "subject exited while waiting for tcp connect: signal: 9"));
    let (t, m) = fail_of(subject_wait_step(
        42,
        addr,
        SubjectWaitEvent::Heartbeat { exited: Err("denied".into()), elapsed: String::new() },
    ));
    assert_eq!((t, m.as_str()), (None, "try_wait on subject process: denied"));
    let (t, m) = fail_of(subject_wait_step(7, addr, SubjectWaitEvent::HandshakeFailed { error: "bad hello".into() }));
    assert_eq!((t.as_deref(), m.as_str()), (Some("TCP handshake failed"), "handshake: bad hello"));
}

#[test]
fn unicode_white_space_is_trimmed() {
    assert!(matches!(
        classify_stdout_line("\u{3000}\u{85}ready\u{2028}\u{a0}\t"),
        StdoutLine::Log(t) if t == "ready"
    ));
    assert!(matches!(
        classify_stdout_line("\u{200b}ready"),
        StdoutLine::Log(t) if t == "\u{200b}ready"
    ));
}
