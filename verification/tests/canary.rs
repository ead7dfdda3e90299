use vox_verified::canary::{
    check_swift_args, reply_for_rich_call, reply_for_swift_args, reply_for_swift_canary_call,
    swift_canary_reply, SwiftCanaryCall, SwiftCanaryOutcome,
};
use vox_verified::schema_deser::SchemaDeserializeError;

fn call(outcome: SwiftCanaryOutcome) -> SwiftCanaryCall {
    SwiftCanaryCall {
        method: 7,
        title: "hello".to_string(),
        payload: vec![1, 2, 3, 4],
        retry: Some(9),
        outcome,
        output: (),
    }
}

#[test]
fn rich_call_reply_echoes_every_field() {
    let r = reply_for_swift_canary_call(call(SwiftCanaryOutcome::accepted("ok".to_string())));
    assert_eq!(r.message, "7:hello:4:accepted:ok");
    assert_eq!(r.retry, Some(9));
    let r = reply_for_swift_canary_call(call(SwiftCanaryOutcome::rejected(404)));
    assert_eq!(r.message, "7:hello:4:rejected:404");
}

#[test]
fn expected_args_are_accepted() {
    assert!(check_swift_args(&("swift rpc args".to_string(), Some(144), ())).is_ok());
    let e = check_swift_args(&("other".to_string(), Some(144), ())).unwrap_err();
    assert_eq!(e, "unexpected Swift args payload: (\"other\", Some(144), ())");
    let e = check_swift_args(&("swift rpc args".to_string(), None, ())).unwrap_err();
    assert_eq!(e, "unexpected Swift args payload: (\"swift rpc args\", None, ())");
}

#[test]
fn simple_handler_replies() {
    let r = reply_for_swift_args(Ok(("swift rpc args".to_string(), Some(144), ())));
    assert_eq!(r.message, "rust vox response");
    assert_eq!(r.retry, Some(233));
    let r = reply_for_swift_args(Ok(("x".to_string(), Some(1), ())));
    assert_eq!(r.message, "unexpected args: (\"x\", Some(1), ())");
    assert_eq!(r.retry, None);
    let r = reply_for_swift_args(Err(SchemaDeserializeError::Decode("short".to_string())));
    assert_eq!(r.message, "decode error: binette decode error: short");
    assert_eq!(r.retry, None);
}

#[test]
fn rich_handler_replies() {
    let r = reply_for_rich_call(Ok(call(SwiftCanaryOutcome::rejected(0))));
    assert_eq!(r.message, "7:hello:4:rejected:0");
    let r = reply_for_rich_call(Err(SchemaDeserializeError::Protocol(
        "rich driver canary expected incoming binette bytes".to_string(),
    )));
    assert_eq!(r.message, "decode error: protocol error: rich driver canary expected incoming binette bytes");
    assert_eq!(r.retry, None);
}

#[test]
fn canned_reply() {
    let r = swift_canary_reply();
    assert_eq!(r.message, "rust vox response");
    assert_eq!(r.retry, Some(233));
}

#[test]
fn schema_error_messages() {
    assert_eq!(SchemaDeserializeError::Plan("p".into()).message(), "translation plan failed: p");
    assert_eq!(SchemaDeserializeError::Protocol("q".into()).message(), "protocol error: q");
    assert_eq!(SchemaDeserializeError::Decode("r".into()).message(), "binette decode error: r");
}
