use vox_verified::highlevel::{
    after_attempt, attempt_budget, connect, parse_connect_address, plan_establish, serve,
    serve_listener, serve_target, unknown_scheme_error, validate_channel_capacity, AttemptVerdict,
    ConnectAddress, EstablishPlan, ServeError, ServeTarget, SessionError,
    DEFAULT_INITIAL_CHANNEL_CREDIT, INITIAL_CONNECT_BACKOFF_MAX_NANOS,
    INITIAL_CONNECT_BACKOFF_MIN_NANOS,
};

const SECOND: u128 = 1_000_000_000;

fn protocol_message(e: SessionError) -> String {
    match e {
        SessionError::Protocol(m) => m,
        _ => panic!("expected a protocol error"),
    }
}

#[test]
fn bare_address_is_tcp() {
    match parse_connect_address("127.0.0.1:9000".to_string()) {
        Ok(ConnectAddress::Tcp(h)) => assert_eq!(h, "127.0.0.1:9000"),
        _ => panic!("expected tcp"),
    }
}

#[test]
fn schemes_pick_transports() {
    match parse_connect_address("tcp://host:1".to_string()) {
        Ok(ConnectAddress::Tcp(h)) => assert_eq!(h, "host:1"),
        _ => panic!("expected tcp"),
    }
    match parse_connect_address("local:///tmp/vox.sock".to_string()) {
        Ok(ConnectAddress::Local(p)) => assert_eq!(p, "/tmp/vox.sock"),
        _ => panic!("expected local"),
    }
    match parse_connect_address("ws://host:2/path".to_string()) {
        Ok(ConnectAddress::Ws(u)) => assert_eq!(u, "ws://host:2/path"),
        _ => panic!("expected ws"),
    }
    match parse_connect_address("wss://host:3".to_string()) {
        Ok(ConnectAddress::Ws(u)) => assert_eq!(u, "wss://host:3"),
        _ => panic!("expected wss"),
    }
}

#[test]
fn only_the_first_separator_splits() {
    match parse_connect_address("ws://a://b".to_string()) {
        Ok(ConnectAddress::Ws(u)) => assert_eq!(u, "ws://a://b"),
        _ => panic!("expected ws"),
    }
}

#[test]
fn unknown_scheme_is_a_protocol_error() {
    let e = match parse_connect_address("http://example".to_string()) {
        Err(e) => e,
        Ok(_) => panic!("expected an error"),
    };
    assert_eq!(protocol_message(e), "unknown transport scheme: \"http\"");
    let e = match parse_connect_address("a\"b://x".to_string()) {
        Err(e) => e,
        Ok(_) => panic!("expected an error"),
    };
    assert_eq!(protocol_message(e), "unknown transport scheme: \"a\\\"b\"");
    assert_eq!(protocol_message(unknown_scheme_error("\"q\"")), "unknown transport scheme: \"q\"");
}

#[test]
fn zero_capacity_is_refused() {
    assert!(validate_channel_capacity(1).is_ok());
    let e = validate_channel_capacity(0).unwrap_err();
    assert_eq!(protocol_message(e), "channel_capacity must be greater than zero");
}

#[test]
fn serve_targets() {
    assert!(matches!(serve_target("0.0.0.0:9000", 16), Ok(ServeTarget::Tcp(h)) if h == "0.0.0.0:9000"));
    assert!(matches!(serve_target("local://sock", 16), Ok(ServeTarget::Local(h)) if h == "sock"));
    assert!(matches!(serve_target("ws://0.0.0.0:1", 16), Ok(ServeTarget::Ws(h)) if h == "0.0.0.0:1"));
    assert!(matches!(
        serve_target("wss://h:1?cert=c&key=k", 16),
        Ok(ServeTarget::Wss(h)) if h == "h:1?cert=c&key=k"
    ));
    assert!(matches!(
        serve_target("udp://h:1", 16),
        Err(ServeError::UnsupportedScheme { scheme }) if scheme == "udp"
    ));
    assert!(matches!(
        serve_target("udp://h:1", 0),
        Err(ServeError::Session(SessionError::Protocol(m))) if m == "channel_capacity must be greater than zero"
    ));
}

#[test]
fn single_attempt_result_is_final() {
    let (addr, mut plan) = plan_establish(16, "h:1", None, 0).ok().unwrap();
    assert!(matches!(addr, ConnectAddress::Tcp(_)));
    assert_eq!(plan, EstablishPlan::Once);
    assert!(matches!(attempt_budget(&plan, 5), Ok(None)));
    let v = after_attempt::<u8>(&mut plan, Some(Err(SessionError::ConnectTimeout)), 10);
    assert!(matches!(v, AttemptVerdict::Finish(Err(SessionError::ConnectTimeout))));
    let v = after_attempt::<u8>(&mut plan, Some(Ok(3)), 10);
    assert!(matches!(v, AttemptVerdict::Finish(Ok(3))));
}

#[test]
fn transient_failures_back_off_doubling_to_the_cap() {
    let (_, mut plan) = plan_establish(16, "h:1", Some(60 * SECOND), 0).ok().unwrap();
    assert_eq!(
        plan,
        EstablishPlan::Retry { deadline: 60 * SECOND, backoff: INITIAL_CONNECT_BACKOFF_MIN_NANOS }
    );
    let mut waits = Vec::new();
    for _ in 0..8 {
        let io = std::io::Error::new(std::io::ErrorKind::ConnectionRefused, "refused");
        match after_attempt::<u8>(&mut plan, Some(Err(SessionError::Io(io))), SECOND) {
            AttemptVerdict::Wait { nanos } => waits.push(nanos),
            AttemptVerdict::Finish(_) => panic!("expected a wait"),
        }
    }
    let ms: Vec<u128> = waits.iter().map(|n| n / 1_000_000).collect();
    assert_eq!(ms, vec![100, 200, 400, 800, 1600, 3200, 5000, 5000]);
    assert_eq!(
        plan,
        EstablishPlan::Retry { deadline: 60 * SECOND, backoff: INITIAL_CONNECT_BACKOFF_MAX_NANOS }
    );
}

#[test]
fn a_timed_out_attempt_counts_as_transient() {
    let (_, mut plan) = plan_establish(16, "h:1", Some(10 * SECOND), 0).ok().unwrap();
    assert!(matches!(after_attempt::<u8>(&mut plan, None, SECOND), AttemptVerdict::Wait { nanos } if nanos == INITIAL_CONNECT_BACKOFF_MIN_NANOS));
}

#[test]
fn the_wait_never_passes_the_deadline() {
    let (_, mut plan) = plan_establish(16, "h:1", Some(SECOND), 0).ok().unwrap();
    let v = after_attempt::<u8>(&mut plan, Some(Err(SessionError::ConnectTimeout)), SECOND - 30);
    assert!(matches!(v, AttemptVerdict::Wait { nanos: 30 }));
}

#[test]
fn protocol_errors_end_the_wait_at_once() {
    let (_, mut plan) = plan_establish(16, "h:1", Some(60 * SECOND), 0).ok().unwrap();
    let v = after_attempt::<u8>(&mut plan, Some(Err(SessionError::Protocol("no".to_string()))), SECOND);
    assert!(matches!(v, AttemptVerdict::Finish(Err(SessionError::Protocol(m))) if m == "no"));
}

#[test]
fn failures_after_the_deadline_are_final() {
    let (_, mut plan) = plan_establish(16, "h:1", Some(SECOND), 0).ok().unwrap();
    assert!(matches!(attempt_budget(&plan, SECOND / 2), Ok(Some(b)) if b == SECOND / 2));
    assert!(matches!(attempt_budget(&plan, SECOND), Err(SessionError::ConnectTimeout)));
    let v = after_attempt::<u8>(&mut plan, Some(Err(SessionError::ConnectTimeout)), 2 * SECOND);
    assert!(matches!(v, AttemptVerdict::Finish(Err(SessionError::ConnectTimeout))));
}

#[test]
fn plan_checks_capacity_then_address() {
    let e = plan_establish(0, "nope://x", None, 0).err().unwrap();
    assert_eq!(protocol_message(e), "channel_capacity must be greater than zero");
    let e = plan_establish(1, "nope://x", None, 0).err().unwrap();
    assert_eq!(protocol_message(e), "unknown transport scheme: \"nope\"");
}

#[test]
fn connect_builder_defaults_and_setters() {
    let b = connect::<(), ()>("ws://h:1").channel_capacity(0);
    let e = b.plan(0).err().unwrap();
    assert_eq!(protocol_message(e), "channel_capacity must be greater than zero");
    let b = connect::<u8, u8>("h:1").on_connection(3).observer(4).connect_timeout(7).wait_for_service(SECOND);
    let (plan_addr, plan) = b.plan(5).ok().unwrap();
    assert!(matches!(plan_addr, ConnectAddress::Tcp(h) if h == "h:1"));
    assert_eq!(plan, EstablishPlan::Retry { deadline: SECOND + 5, backoff: INITIAL_CONNECT_BACKOFF_MIN_NANOS });
    let (meta, router, timeout, capacity, observer) = b.into_parts();
    assert!(meta.meta_is_empty());
    assert_eq!(router, Some(3));
    assert_eq!(timeout, Some(7));
    assert_eq!(capacity, DEFAULT_INITIAL_CHANNEL_CREDIT);
    assert_eq!(observer, Some(4));
}

#[test]
fn serve_builders() {
    let b = serve::<&str, u8>("local://s", "router").channel_capacity(8).observer_handle(1);
    assert!(matches!(b.target(), Ok(ServeTarget::Local(p)) if p == "s"));
    assert_eq!(b.into_parts(), ("router", 8, Some(1)));
    let l = serve_listener::<u32, &str, u8>(5, "router");
    assert!(l.check().is_ok());
    let l = l.channel_capacity(0);
    assert!(l.check().is_err());
    assert_eq!(l.into_parts(), (5, "router", 0, None));
}
