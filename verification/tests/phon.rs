use vox_verified::conduit::{check_fd_passing, fd_passing_refusal, BareConduit, BareConduitError, MessagePlan, PreparedFrame};
use vox_verified::handshake::{ConnectionSettings, HandshakeResult, Parity, SessionRole};
use vox_verified::metadata::Metadata;
use vox_verified::phon::{encode_bundle, parse_schema_bytes, split_self_describing, to_self_describing, Error};

#[test]
fn bundle_layout_and_round_trip() {
    let schemas = vec![vec![0xaau8, 0xbb], vec![], vec![7]];
    let bytes = encode_bundle(0x0102_0304_0506_0708, &schemas);
    let mut expected = vec![8u8, 7, 6, 5, 4, 3, 2, 1, 3, 0, 0, 0];
    expected.extend_from_slice(&[2, 0, 0, 0, 0xaa, 0xbb, 0, 0, 0, 0, 1, 0, 0, 0, 7]);
    assert_eq!(bytes, expected);
    let closure = parse_schema_bytes(&bytes).ok().unwrap();
    assert_eq!(closure.root, 0x0102_0304_0506_0708);
    assert_eq!(closure.schemas, schemas);
}

#[test]
fn bundle_faults() {
    let msg = |r: Result<_, Error>| r.err().map(|e: Error| e.message().to_string()).unwrap();
    assert_eq!(msg(parse_schema_bytes(&[1, 2, 3])), "schema bundle root: UnexpectedEof");
    assert_eq!(msg(parse_schema_bytes(&[0; 10])), "schema bundle count: UnexpectedEof");
    let mut b = encode_bundle(1, &[vec![5, 6]]);
    b.push(0);
    b.push(0);
    assert_eq!(msg(parse_schema_bytes(&b)), "schema bundle has 2 trailing bytes");
    let mut short = encode_bundle(1, &[vec![5, 6]]);
    short.pop();
    assert_eq!(msg(parse_schema_bytes(&short)), "schema bundle entry body: UnexpectedEof");
}

#[test]
fn self_describing_round_trip() {
    let schema = encode_bundle(42, &[vec![1, 2, 3]]);
    let framed = to_self_describing(&schema, &[9, 9]);
    assert_eq!(&framed[0..4], &(schema.len() as u32).to_le_bytes());
    let (closure, value) = split_self_describing(&framed).ok().unwrap();
    assert_eq!(closure.root, 42);
    assert_eq!(closure.schemas, vec![vec![1u8, 2, 3]]);
    assert_eq!(value, &[9u8, 9][..]);
}

fn result(peer_schema: Vec<u8>) -> HandshakeResult {
    let s = ConnectionSettings { parity: Parity::Odd, max_concurrent_requests: 1, initial_channel_credit: 1 };
    HandshakeResult {
        role: SessionRole::Initiator,
        our_settings: s,
        peer_settings: s,
        our_schema: vec![1, 1],
        peer_schema,
        peer_metadata: Metadata::new(),
    }
}

#[test]
fn message_plan_falls_back_to_our_schema() {
    assert_eq!(MessagePlan::from_handshake(&result(vec![])).ok().unwrap().writer_schema, vec![1, 1]);
    assert_eq!(MessagePlan::from_handshake(&result(vec![2])).ok().unwrap().writer_schema, vec![2]);
}

#[test]
fn descriptors_need_a_transport_that_passes_them() {
    let frame = PreparedFrame { bytes: vec![1], fds: vec![3] };
    assert!(check_fd_passing(&frame, true).is_ok());
    assert!(matches!(check_fd_passing(&frame, false), Err(BareConduitError::Io(_))));
    let plain = PreparedFrame { bytes: vec![1], fds: vec![] };
    assert!(check_fd_passing(&plain, false).is_ok());
    assert_eq!(BareConduitError::LinkDead.message(), "link dead");
    assert_eq!(BareConduitError::Encode(Error("x".to_string())).message(), "encode error: x");
}

struct PipeLink;

impl vox_verified::conduit::Link for PipeLink {
    type Tx = u8;
    type Rx = u16;

    fn split(self) -> (u8, u16) {
        (1, 2)
    }
}

#[test]
fn conduit_halves_hold_received_descriptors_until_taken() {
    let conduit: BareConduit<(), PipeLink> = BareConduit::with_message_plan(PipeLink, MessagePlan { writer_schema: vec![] });
    let (tx, mut rx) = conduit.split();
    assert_eq!(*tx.link_tx(), 1);
    assert_eq!(*rx.link_rx(), 2);
    assert!(rx.take_frame_fds().is_empty());
    rx.set_frame_fds(vec![4, 5]);
    rx.set_frame_fds(vec![6]);
    assert_eq!(rx.take_frame_fds(), vec![6]);
    assert!(rx.take_frame_fds().is_empty());
}

#[test]
fn schema_bundle_round_trips() {
    // A closure of three schemas (their self-describing bytes stand in for
    // what the schema deriver produces for a type).
    let schemas = vec![vec![1u8, 2, 3], vec![4u8; 40], vec![]];
    let bytes = encode_bundle(0xfeed_beef, &schemas);
    let bundle = parse_schema_bytes(&bytes).expect("parse");
    assert_eq!(bundle.root, 0xfeed_beef);
    assert_eq!(bundle.schemas.len(), schemas.len());
}

#[test]
fn descriptor_refusal_is_an_other_io_error_with_its_message() {
    const REFUSAL: &str = "message carries file descriptors but the transport cannot pass them";
    let frame = PreparedFrame { bytes: vec![1], fds: vec![3, 4] };
    assert_eq!(fd_passing_refusal(&frame, false), Some(REFUSAL));
    assert_eq!(fd_passing_refusal(&frame, true), None);
    match check_fd_passing(&frame, false) {
        Err(BareConduitError::Io(e)) => {
            assert_eq!(e.kind(), std::io::ErrorKind::Other);
            assert_eq!(e.to_string(), REFUSAL);
            let err = BareConduitError::Io(e);
            assert_eq!(err.message(), format!("io error: {REFUSAL}"));
        }
        _ => panic!("expected an I/O error"),
    }
}
