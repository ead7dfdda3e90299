use vox_verified::handshake::{
    acceptor_on_hello, acceptor_on_reply, acceptor_start, handshake_tag, initiator_on_reply,
    initiator_start, validate_initial_channel_credit, ConnectionSettings, HandshakeError,
    HandshakeMessage, LetsGo, Parity, SessionRole, Sorry,
};
use vox_verified::metadata::metadata;

const ZERO_CREDIT: &str = "initial_channel_credit must be greater than zero";

fn settings(parity: Parity, initial_channel_credit: u32) -> ConnectionSettings {
    ConnectionSettings { parity, max_concurrent_requests: 64, initial_channel_credit }
}

#[test]
fn initiator_rejects_local_zero_initial_credit_before_handshake() {
    let r = initiator_start(settings(Parity::Odd, 0), metadata().build(), vec![1, 2]);
    match r {
        Err(HandshakeError::Protocol(m)) => assert_eq!(m, ZERO_CREDIT),
        _ => panic!("expected a protocol error"),
    }
}

#[test]
fn acceptor_rejects_local_zero_initial_credit_before_reading() {
    let r = acceptor_start(settings(Parity::Even, 0), metadata().build(), vec![]);
    assert!(matches!(r, Err(HandshakeError::Protocol(m)) if m == ZERO_CREDIT));
}

#[test]
fn acceptor_rejects_peer_zero_initial_credit_before_session_starts() {
    // The initiator's own check is bypassed by building its Hello by hand.
    let (_, hello) = initiator_start(settings(Parity::Odd, 16), metadata().build(), vec![9]).unwrap();
    let hello = match hello {
        HandshakeMessage::Hello(mut h) => {
            h.connection_settings.initial_channel_credit = 0;
            HandshakeMessage::Hello(h)
        }
        _ => panic!("expected Hello"),
    };
    let acceptor = acceptor_start(settings(Parity::Even, 16), metadata().build(), vec![7]).unwrap();
    let step = acceptor_on_hello(acceptor, hello);
    match step.send {
        Some(HandshakeMessage::Sorry(s)) => assert_eq!(s.reason, ZERO_CREDIT),
        _ => panic!("expected Sorry"),
    }
    assert!(matches!(step.outcome, Err(HandshakeError::Protocol(m)) if m == ZERO_CREDIT));
}

#[test]
fn full_handshake_agrees_on_both_sides() {
    let init_meta = metadata().str("vox-service", "Noop").build();
    let acc_meta = metadata().str("role", "server").build();
    let (waiting, hello) =
        initiator_start(settings(Parity::Odd, 16), init_meta, vec![1, 2, 3]).unwrap();
    assert_eq!(handshake_tag(&hello), "Hello");
    let acceptor = acceptor_start(settings(Parity::Odd, 32), acc_meta, vec![4, 5]).unwrap();
    let step = acceptor_on_hello(acceptor, hello);
    let answer = step.send.expect("HelloYourself");
    assert_eq!(handshake_tag(&answer), "HelloYourself");
    let pending = match step.outcome {
        Ok(p) => p,
        Err(_) => panic!("acceptor failed"),
    };
    let step = initiator_on_reply(waiting, answer);
    let confirm = step.send.expect("LetsGo");
    assert_eq!(handshake_tag(&confirm), "LetsGo");
    let init = match step.outcome {
        Ok(r) => r,
        Err(_) => panic!("initiator failed"),
    };
    let acc = match acceptor_on_reply(pending, confirm) {
        Ok(r) => r,
        Err(_) => panic!("acceptor failed on LetsGo"),
    };
    assert!(matches!(init.role, SessionRole::Initiator));
    assert!(matches!(acc.role, SessionRole::Acceptor));
    assert_eq!(init.peer_schema, vec![4, 5]);
    assert_eq!(acc.peer_schema, vec![1, 2, 3]);
    assert_eq!(init.our_schema, vec![1, 2, 3]);
    // The acceptor takes the parity opposite to the initiator's.
    assert_eq!(acc.our_settings.parity, Parity::Even);
    assert_eq!(init.peer_settings, acc.our_settings);
    assert_eq!(acc.peer_settings, init.our_settings);
    assert_eq!(init.peer_metadata.meta_str("role"), Some("server"));
    assert_eq!(acc.peer_metadata.meta_str("vox-service"), Some("Noop"));
}

#[test]
fn initiator_takes_sorry_as_rejection() {
    let (waiting, _) = initiator_start(settings(Parity::Odd, 16), metadata().build(), vec![]).unwrap();
    let step = initiator_on_reply(waiting, HandshakeMessage::Sorry(Sorry { reason: "busy".to_string() }));
    assert!(step.send.is_none());
    assert!(matches!(step.outcome, Err(HandshakeError::Sorry(r)) if r == "busy"));
}

#[test]
fn initiator_refuses_an_unexpected_frame() {
    let (waiting, _) = initiator_start(settings(Parity::Odd, 16), metadata().build(), vec![]).unwrap();
    let step = initiator_on_reply(waiting, HandshakeMessage::LetsGo(LetsGo {}));
    assert!(step.send.is_none());
    match step.outcome {
        Err(e) => assert_eq!(e.message(), "handshake protocol error: expected HelloYourself or Sorry"),
        Ok(_) => panic!("expected an error"),
    }
}

#[test]
fn acceptor_refuses_a_frame_other_than_hello() {
    let acceptor = acceptor_start(settings(Parity::Even, 16), metadata().build(), vec![]).unwrap();
    let step = acceptor_on_hello(acceptor, HandshakeMessage::LetsGo(LetsGo {}));
    assert!(step.send.is_none());
    assert!(matches!(step.outcome, Err(HandshakeError::Protocol(m)) if m == "expected Hello"));
}

#[test]
fn error_messages() {
    assert_eq!(HandshakeError::PeerClosed.message(), "peer closed during handshake");
    assert_eq!(HandshakeError::Encode("x".into()).message(), "handshake encode error: x");
    assert_eq!(HandshakeError::Decode("y".into()).message(), "handshake decode error: y");
    assert_eq!(HandshakeError::Sorry("no".into()).message(), "handshake rejected: no");
    let io = HandshakeError::Io(std::io::Error::new(std::io::ErrorKind::Other, "pipe"));
    assert_eq!(io.message(), "handshake io error: pipe");
}

#[test]
fn validate_credit() {
    assert!(validate_initial_channel_credit(&settings(Parity::Odd, 1)).is_ok());
    assert!(validate_initial_channel_credit(&settings(Parity::Odd, 0)).is_err());
    assert_eq!(Parity::Odd.other(), Parity::Even);
    assert_eq!(Parity::Even.other(), Parity::Odd);
}
