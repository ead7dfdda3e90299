//! The replies of the Swift interoperability canaries: what the Rust side
//! answers for the arguments a Swift peer sent.

use crate::schema_deser::{schema_error_text, SchemaDeserializeError};
use crate::text::{debug_quote, debug_str, decimal, push_decimal};
use vstd::prelude::*;

verus! {

/// The reply a canary sends back.
pub struct SwiftCanaryReply {
    pub message: String,
    pub retry: Option<u16>,
}

/// The outcome field of a rich canary call.
#[allow(non_camel_case_types)]
pub enum SwiftCanaryOutcome {
    accepted(String),
    rejected(u32),
}

/// The arguments of a rich canary call.
pub struct SwiftCanaryCall {
    pub method: u32,
    pub title: String,
    pub payload: Vec<u8>,
    pub retry: Option<u16>,
    pub outcome: SwiftCanaryOutcome,
    pub output: (),
}

/// The arguments of the simple canary call.
pub type SwiftArgs = (String, Option<u16>, ());

/// `accepted:` and the message, or `rejected:` and the code.
pub open spec fn outcome_text(o: SwiftCanaryOutcome) -> Seq<char> {
    match o {
        SwiftCanaryOutcome::accepted(m) => "accepted:"@ + m@,
        SwiftCanaryOutcome::rejected(c) => "rejected:"@ + decimal(c as nat),
    }
}

/// The method, title, payload length and outcome, separated by colons.
pub open spec fn canary_call_message(call: SwiftCanaryCall) -> Seq<char> {
    decimal(call.method as nat) + ":"@ + call.title@ + ":"@ + decimal(call.payload@.len()) + ":"@
        + outcome_text(call.outcome)
}

/// The reply to a rich canary call: its fields echoed in one message, and
/// its retry value.
pub fn reply_for_swift_canary_call(call: SwiftCanaryCall) -> (r: SwiftCanaryReply)
    ensures
        r.message@ == canary_call_message(call),
        r.retry == call.retry,
{
    let mut m = String::new();
    push_decimal(&mut m, call.method as u64);
    m.append(":");
    m.append(call.title.as_str());
    m.append(":");
    push_decimal(&mut m, call.payload.len() as u64);
    m.append(":");
    let ghost before = m@;
    match &call.outcome {
        SwiftCanaryOutcome::accepted(message) => {
            m.append("accepted:");
            m.append(message.as_str());
        },
        SwiftCanaryOutcome::rejected(code) => {
            m.append("rejected:");
            push_decimal(&mut m, *code as u64);
        },
    }
    proof {
        reveal_strlit(":");
        reveal_strlit("accepted:");
        reveal_strlit("rejected:");
        assert(m@ =~= canary_call_message(call));
    }
    SwiftCanaryReply { message: m, retry: call.retry }
}

/// The arguments the simple canary expects.
pub open spec fn is_expected_args(args: SwiftArgs) -> bool {
    args.0@ == "swift rpc args"@ && args.1 == Some(144u16)
}

/// `Some(n)` or `None`, as `Debug` renders an `Option<u16>`.
pub open spec fn option_u16_debug(v: Option<u16>) -> Seq<char> {
    match v {
        Some(n) => "Some("@ + decimal(n as nat) + ")"@,
        None => "None"@,
    }
}

/// The arguments as `Debug` renders the tuple.
pub open spec fn args_debug(args: SwiftArgs) -> Seq<char> {
    "("@ + debug_str(args.0@) + ", "@ + option_u16_debug(args.1) + ", ())"@
}

fn push_args_debug(out: &mut String, args: &SwiftArgs)
    ensures
        final(out)@ == old(out)@ + args_debug(*args),
{
    let ghost start = out@;
    out.append("(");
    let quoted = debug_quote(args.0.as_str());
    out.append(quoted.as_str());
    out.append(", ");
    match args.1 {
        Some(n) => {
            out.append("Some(");
            push_decimal(out, n as u64);
            out.append(")");
        },
        None => {
            out.append("None");
        },
    }
    out.append(", ())");
    proof {
        reveal_strlit("(");
        reveal_strlit(", ");
        reveal_strlit("Some(");
        reveal_strlit(")");
        reveal_strlit("None");
        reveal_strlit(", ())");
        assert(out@ =~= start + args_debug(*args));
    }
}

/// `Ok` for the expected arguments; otherwise an error that shows what came.
pub fn check_swift_args(args: &SwiftArgs) -> (r: Result<(), String>)
    ensures
        r is Ok <==> is_expected_args(*args),
        r matches Err(m) ==> m@ == "unexpected Swift args payload: "@ + args_debug(*args),
{
    if args.0 == String::from_str("swift rpc args") && args.1 == Some(144u16) {
        Ok(())
    } else {
        let mut m = String::from_str("unexpected Swift args payload: ");
        push_args_debug(&mut m, args);
        Err(m)
    }
}

/// The canned reply of the Rust side.
pub open spec fn rust_reply_message() -> Seq<char> {
    "rust vox response"@
}

/// The Rust side's reply to accepted arguments.
pub fn swift_canary_reply() -> (r: SwiftCanaryReply)
    ensures
        r.message@ == rust_reply_message(),
        r.retry == Some(233u16),
{
    SwiftCanaryReply { message: String::from_str("rust vox response"), retry: Some(233u16) }
}

/// The reply of the simple canary handler for what decoding gave.
pub fn reply_for_swift_args(decoded: Result<SwiftArgs, SchemaDeserializeError>) -> (r: SwiftCanaryReply)
    ensures
        match decoded {
            Ok(args) => if is_expected_args(args) {
                r.message@ == rust_reply_message() && r.retry == Some(233u16)
            } else {
                r.message@ == "unexpected args: "@ + args_debug(args) && r.retry is None
            },
            Err(e) => r.message@ == "decode error: "@ + schema_error_text(e@) && r.retry is None,
        },
{
    match decoded {
        Ok(args) => {
            if args.0 == String::from_str("swift rpc args") && args.1 == Some(144u16) {
                swift_canary_reply()
            } else {
                let mut m = String::from_str("unexpected args: ");
                push_args_debug(&mut m, &args);
                SwiftCanaryReply { message: m, retry: None }
            }
        },
        Err(e) => {
            let m = String::from_str("decode error: ").concat(e.message().as_str());
            SwiftCanaryReply { message: m, retry: None }
        },
    }
}

/// The reply of the rich canary handler for what decoding gave.
pub fn reply_for_rich_call(decoded: Result<SwiftCanaryCall, SchemaDeserializeError>) -> (r: SwiftCanaryReply)
    ensures
        match decoded {
            Ok(call) => r.message@ == canary_call_message(call) && r.retry == call.retry,
            Err(e) => r.message@ == "decode error: "@ + schema_error_text(e@) && r.retry is None,
        },
{
    match decoded {
        Ok(call) => reply_for_swift_canary_call(call),
        Err(e) => {
            let m = String::from_str("decode error: ").concat(e.message().as_str());
            SwiftCanaryReply { message: m, retry: None }
        },
    }
}

} // verus!
