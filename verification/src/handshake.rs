//! The session handshake, as the decisions each side takes between link
//! operations. The initiator sends `Hello`, reads `HelloYourself` (or
//! `Sorry`) and answers `LetsGo` (or `Sorry`); the acceptor reads `Hello`,
//! answers `HelloYourself` (or `Sorry`) and reads `LetsGo` (or `Sorry`).
//! Sending and receiving frames is left to the caller: each step here takes
//! what arrived and says what to send next and how the handshake stands.

use crate::metadata::Metadata;
use vstd::prelude::*;

verus! {

/// Calls `std::io::Error`'s `Display`; the text is the platform's and is not
/// described here.
#[verifier::external_body]
pub(crate) fn io_error_text(e: &std::io::Error) -> String {
    format!("{e}")
}

#[verifier::external_type_specification]
#[verifier::external_body]
pub struct ExIoError(std::io::Error);

/// Which request ids a side allocates.
#[derive(Clone, Copy, Debug, PartialEq, Eq, Structural)]
pub enum Parity {
    Odd,
    Even,
}

impl Parity {
    /// The opposite parity.
    pub open spec fn spec_other(self) -> Parity {
        match self {
            Parity::Odd => Parity::Even,
            Parity::Even => Parity::Odd,
        }
    }

    /// The opposite parity.
    pub fn other(self) -> (r: Parity)
        ensures
            r == self.spec_other(),
    {
        match self {
            Parity::Odd => Parity::Even,
            Parity::Even => Parity::Odd,
        }
    }
}

/// Per-connection settings each side announces.
#[derive(Clone, Copy, Debug, PartialEq, Eq, Structural)]
pub struct ConnectionSettings {
    pub parity: Parity,
    pub max_concurrent_requests: u32,
    pub initial_channel_credit: u32,
}

/// The initiator's opening message.
pub struct Hello {
    pub parity: Parity,
    pub connection_settings: ConnectionSettings,
    pub message_payload_schema: Vec<u8>,
    pub metadata: Metadata,
}

/// The acceptor's answer to `Hello`.
pub struct HelloYourself {
    pub connection_settings: ConnectionSettings,
    pub message_payload_schema: Vec<u8>,
    pub metadata: Metadata,
}

/// The initiator's confirmation.
pub struct LetsGo {}

/// A refusal, with its reason.
pub struct Sorry {
    pub reason: String,
}

/// A handshake frame.
pub enum HandshakeMessage {
    Hello(Hello),
    HelloYourself(HelloYourself),
    LetsGo(LetsGo),
    Sorry(Sorry),
}

/// The content of a handshake frame.
pub enum HandshakeMessageView {
    Hello {
        parity: Parity,
        connection_settings: ConnectionSettings,
        message_payload_schema: Seq<u8>,
        metadata: Metadata,
    },
    HelloYourself {
        connection_settings: ConnectionSettings,
        message_payload_schema: Seq<u8>,
        metadata: Metadata,
    },
    LetsGo,
    Sorry { reason: Seq<char> },
}

impl View for HandshakeMessage {
    type V = HandshakeMessageView;

    open spec fn view(&self) -> HandshakeMessageView {
        match self {
            HandshakeMessage::Hello(h) => HandshakeMessageView::Hello {
                parity: h.parity,
                connection_settings: h.connection_settings,
                message_payload_schema: h.message_payload_schema@,
                metadata: h.metadata,
            },
            HandshakeMessage::HelloYourself(h) => HandshakeMessageView::HelloYourself {
                connection_settings: h.connection_settings,
                message_payload_schema: h.message_payload_schema@,
                metadata: h.metadata,
            },
            HandshakeMessage::LetsGo(_) => HandshakeMessageView::LetsGo,
            HandshakeMessage::Sorry(s) => HandshakeMessageView::Sorry { reason: s.reason@ },
        }
    }
}

/// Which side of the handshake a session took.
#[derive(Clone, Copy, Debug, PartialEq, Eq, Structural)]
pub enum SessionRole {
    Initiator,
    Acceptor,
}

/// What a completed handshake established.
pub struct HandshakeResult {
    pub role: SessionRole,
    pub our_settings: ConnectionSettings,
    pub peer_settings: ConnectionSettings,
    pub our_schema: Vec<u8>,
    pub peer_schema: Vec<u8>,
    pub peer_metadata: Metadata,
}

/// The content of a [`HandshakeResult`].
pub struct HandshakeResultView {
    pub role: SessionRole,
    pub our_settings: ConnectionSettings,
    pub peer_settings: ConnectionSettings,
    pub our_schema: Seq<u8>,
    pub peer_schema: Seq<u8>,
    pub peer_metadata: Metadata,
}

impl View for HandshakeResult {
    type V = HandshakeResultView;

    open spec fn view(&self) -> HandshakeResultView {
        HandshakeResultView {
            role: self.role,
            our_settings: self.our_settings,
            peer_settings: self.peer_settings,
            our_schema: self.our_schema@,
            peer_schema: self.peer_schema@,
            peer_metadata: self.peer_metadata,
        }
    }
}

/// Why a handshake failed.
#[derive(Debug)]
pub enum HandshakeError {
    Io(std::io::Error),
    Encode(String),
    Decode(String),
    PeerClosed,
    Protocol(String),
    Sorry(String),
}

/// The content of a [`HandshakeError`] (an I/O error is opaque).
pub enum HandshakeErrorView {
    Io,
    Encode(Seq<char>),
    Decode(Seq<char>),
    PeerClosed,
    Protocol(Seq<char>),
    Sorry(Seq<char>),
}

impl View for HandshakeError {
    type V = HandshakeErrorView;

    open spec fn view(&self) -> HandshakeErrorView {
        match self {
            HandshakeError::Io(_) => HandshakeErrorView::Io,
            HandshakeError::Encode(s) => HandshakeErrorView::Encode(s@),
            HandshakeError::Decode(s) => HandshakeErrorView::Decode(s@),
            HandshakeError::PeerClosed => HandshakeErrorView::PeerClosed,
            HandshakeError::Protocol(s) => HandshakeErrorView::Protocol(s@),
            HandshakeError::Sorry(s) => HandshakeErrorView::Sorry(s@),
        }
    }
}

/// The text of the error for a zero initial channel credit.
pub open spec fn credit_zero_reason() -> Seq<char> {
    "initial_channel_credit must be greater than zero"@
}

fn credit_zero_reason_string() -> (s: String)
    ensures
        s@ == credit_zero_reason(),
{
    String::from_str("initial_channel_credit must be greater than zero")
}

fn copy_bytes(b: &Vec<u8>) -> (c: Vec<u8>)
    ensures
        c@ == b@,
{
    let mut c: Vec<u8> = Vec::new();
    let mut i: usize = 0;
    while i < b.len()
        invariant
            i <= b.len(),
            c@ == b@.subrange(0, i as int),
        decreases b.len() - i,
    {
        c.push(b[i]);
        i += 1;
        assert(c@ =~= b@.subrange(0, i as int));
    }
    assert(b@.subrange(0, i as int) =~= b@);
    c
}

/// A zero initial channel credit is a protocol error.
pub fn validate_initial_channel_credit(settings: &ConnectionSettings) -> (r: Result<(), HandshakeError>)
    ensures
        r is Err <==> settings.initial_channel_credit == 0,
        r matches Err(e) ==> e@ == HandshakeErrorView::Protocol(credit_zero_reason()),
{
    if settings.initial_channel_credit == 0 {
        return Err(HandshakeError::Protocol(credit_zero_reason_string()));
    }
    Ok(())
}

/// The name of a handshake frame's kind.
pub fn handshake_tag(msg: &HandshakeMessage) -> (r: &'static str)
    ensures
        r@ == match msg {
            HandshakeMessage::Hello(_) => "Hello"@,
            HandshakeMessage::HelloYourself(_) => "HelloYourself"@,
            HandshakeMessage::LetsGo(_) => "LetsGo"@,
            HandshakeMessage::Sorry(_) => "Sorry"@,
        },
{
    match msg {
        HandshakeMessage::Hello(_) => "Hello",
        HandshakeMessage::HelloYourself(_) => "HelloYourself",
        HandshakeMessage::LetsGo(_) => "LetsGo",
        HandshakeMessage::Sorry(_) => "Sorry",
    }
}

impl HandshakeError {
    /// The error's message, as its `Display` would render it.
    pub fn message(&self) -> (s: String)
        ensures
            match self {
                HandshakeError::Io(_) => exists|t: Seq<char>| s@ == "handshake io error: "@ + t,
                HandshakeError::Encode(e) => s@ == "handshake encode error: "@ + e@,
                HandshakeError::Decode(e) => s@ == "handshake decode error: "@ + e@,
                HandshakeError::PeerClosed => s@ == "peer closed during handshake"@,
                HandshakeError::Protocol(m) => s@ == "handshake protocol error: "@ + m@,
                HandshakeError::Sorry(r) => s@ == "handshake rejected: "@ + r@,
            },
    {
        match self {
            HandshakeError::Io(e) => {
                let t = io_error_text(e);
                let s = String::from_str("handshake io error: ").concat(t.as_str());
                assert(s@ == "handshake io error: "@ + t@);
                s
            },
            HandshakeError::Encode(e) => String::from_str("handshake encode error: ").concat(e.as_str()),
            HandshakeError::Decode(e) => String::from_str("handshake decode error: ").concat(e.as_str()),
            HandshakeError::PeerClosed => String::from_str("peer closed during handshake"),
            HandshakeError::Protocol(m) => String::from_str("handshake protocol error: ").concat(m.as_str()),
            HandshakeError::Sorry(r) => String::from_str("handshake rejected: ").concat(r.as_str()),
        }
    }
}

/// The `Hello` an initiator with these settings, schema and metadata sends.
pub open spec fn spec_hello(settings: ConnectionSettings, schema: Seq<u8>, metadata: Metadata) -> HandshakeMessageView {
    HandshakeMessageView::Hello {
        parity: settings.parity,
        connection_settings: settings,
        message_payload_schema: schema,
        metadata,
    }
}

/// What a step sends (if anything) and where the handshake stands after it.
pub struct Step<T> {
    pub send: Option<HandshakeMessage>,
    pub outcome: Result<T, HandshakeError>,
}

/// The content of an optional frame to send.
pub open spec fn send_view(m: Option<HandshakeMessage>) -> Option<HandshakeMessageView> {
    match m {
        Some(m) => Some(m@),
        None => None,
    }
}

/// The content of a step's outcome.
pub open spec fn outcome_view<T: View>(r: Result<T, HandshakeError>) -> Result<T::V, HandshakeErrorView> {
    match r {
        Ok(t) => Ok(t@),
        Err(e) => Err(e@),
    }
}

/// The initiator after sending `Hello`, waiting for the acceptor's answer.
pub struct InitiatorAwaitingReply {
    settings: ConnectionSettings,
    our_schema: Vec<u8>,
}

impl InitiatorAwaitingReply {
    pub closed spec fn settings(&self) -> ConnectionSettings {
        self.settings
    }

    pub closed spec fn our_schema(&self) -> Seq<u8> {
        self.our_schema@
    }
}

/// What the initiator does with the acceptor's answer: on `HelloYourself`
/// with a positive credit it confirms with `LetsGo` and completes; a zero
/// peer credit is refused with `Sorry`; a `Sorry` ends the handshake with the
/// peer's reason; anything else is a protocol error.
pub open spec fn spec_initiator_on_reply(
    settings: ConnectionSettings,
    our_schema: Seq<u8>,
    reply: HandshakeMessageView,
) -> (Option<HandshakeMessageView>, Result<HandshakeResultView, HandshakeErrorView>) {
    match reply {
        HandshakeMessageView::HelloYourself { connection_settings, message_payload_schema, metadata } => {
            if connection_settings.initial_channel_credit == 0 {
                (
                    Some(HandshakeMessageView::Sorry { reason: credit_zero_reason() }),
                    Err(HandshakeErrorView::Protocol(credit_zero_reason())),
                )
            } else {
                (
                    Some(HandshakeMessageView::LetsGo),
                    Ok(
                        HandshakeResultView {
                            role: SessionRole::Initiator,
                            our_settings: settings,
                            peer_settings: connection_settings,
                            our_schema,
                            peer_schema: message_payload_schema,
                            peer_metadata: metadata,
                        },
                    ),
                )
            }
        },
        HandshakeMessageView::Sorry { reason } => (None, Err(HandshakeErrorView::Sorry(reason))),
        _ => (None, Err(HandshakeErrorView::Protocol("expected HelloYourself or Sorry"@))),
    }
}

/// Starts the handshake as initiator: a zero local credit fails before
/// anything is sent; otherwise the `Hello` to send.
pub fn initiator_start(settings: ConnectionSettings, metadata: Metadata, our_schema: Vec<u8>) -> (r: Result<
    (InitiatorAwaitingReply, HandshakeMessage),
    HandshakeError,
>)
    ensures
        r is Err <==> settings.initial_channel_credit == 0,
        r matches Err(e) ==> e@ == HandshakeErrorView::Protocol(credit_zero_reason()),
        r matches Ok((st, msg)) ==> {
            &&& st.settings() == settings
            &&& st.our_schema() == our_schema@
            &&& msg@ == spec_hello(settings, our_schema@, metadata)
        },
{
    validate_initial_channel_credit(&settings)?;
    let hello = Hello {
        parity: settings.parity,
        connection_settings: settings,
        message_payload_schema: copy_bytes(&our_schema),
        metadata,
    };
    Ok((InitiatorAwaitingReply { settings, our_schema }, HandshakeMessage::Hello(hello)))
}

/// Takes the acceptor's answer (see [`spec_initiator_on_reply`]).
pub fn initiator_on_reply(state: InitiatorAwaitingReply, reply: HandshakeMessage) -> (r: Step<HandshakeResult>)
    ensures
        (send_view(r.send), outcome_view(r.outcome)) == spec_initiator_on_reply(
            state.settings(),
            state.our_schema(),
            reply@,
        ),
{
    match reply {
        HandshakeMessage::HelloYourself(hy) => {
            if hy.connection_settings.initial_channel_credit == 0 {
                Step {
                    send: Some(HandshakeMessage::Sorry(Sorry { reason: credit_zero_reason_string() })),
                    outcome: Err(HandshakeError::Protocol(credit_zero_reason_string())),
                }
            } else {
                Step {
                    send: Some(HandshakeMessage::LetsGo(LetsGo {})),
                    outcome: Ok(
                        HandshakeResult {
                            role: SessionRole::Initiator,
                            our_settings: state.settings,
                            peer_settings: hy.connection_settings,
                            our_schema: state.our_schema,
                            peer_schema: hy.message_payload_schema,
                            peer_metadata: hy.metadata,
                        },
                    ),
                }
            }
        },
        HandshakeMessage::Sorry(sorry) => Step { send: None, outcome: Err(HandshakeError::Sorry(sorry.reason)) },
        _ => Step {
            send: None,
            outcome: Err(HandshakeError::Protocol(String::from_str("expected HelloYourself or Sorry"))),
        },
    }
}

/// The acceptor before `Hello` has arrived.
pub struct AcceptorAwaitingHello {
    settings: ConnectionSettings,
    our_schema: Vec<u8>,
    metadata: Metadata,
}

impl AcceptorAwaitingHello {
    pub closed spec fn settings(&self) -> ConnectionSettings {
        self.settings
    }

    pub closed spec fn our_schema(&self) -> Seq<u8> {
        self.our_schema@
    }

    pub closed spec fn metadata(&self) -> Metadata {
        self.metadata
    }
}

/// The acceptor after answering `HelloYourself`, waiting for `LetsGo`.
pub struct AcceptorAwaitingLetsGo {
    our_settings: ConnectionSettings,
    our_schema: Vec<u8>,
    peer_settings: ConnectionSettings,
    peer_schema: Vec<u8>,
    peer_metadata: Metadata,
}

/// What the acceptor has agreed to while waiting for `LetsGo`.
pub struct AcceptorPendingView {
    pub our_settings: ConnectionSettings,
    pub our_schema: Seq<u8>,
    pub peer_settings: ConnectionSettings,
    pub peer_schema: Seq<u8>,
    pub peer_metadata: Metadata,
}

impl View for AcceptorAwaitingLetsGo {
    type V = AcceptorPendingView;

    closed spec fn view(&self) -> AcceptorPendingView {
        AcceptorPendingView {
            our_settings: self.our_settings,
            our_schema: self.our_schema@,
            peer_settings: self.peer_settings,
            peer_schema: self.peer_schema@,
            peer_metadata: self.peer_metadata,
        }
    }
}

/// What the acceptor does with the first frame: anything but `Hello` is a
/// protocol error; a `Hello` with zero credit is refused with `Sorry`;
/// otherwise it adopts the opposite parity and answers `HelloYourself`.
pub open spec fn spec_acceptor_on_hello(
    settings: ConnectionSettings,
    our_schema: Seq<u8>,
    metadata: Metadata,
    msg: HandshakeMessageView,
) -> (Option<HandshakeMessageView>, Result<AcceptorPendingView, HandshakeErrorView>) {
    match msg {
        HandshakeMessageView::Hello { parity, connection_settings, message_payload_schema, metadata: peer_metadata } => {
            if connection_settings.initial_channel_credit == 0 {
                (
                    Some(HandshakeMessageView::Sorry { reason: credit_zero_reason() }),
                    Err(HandshakeErrorView::Protocol(credit_zero_reason())),
                )
            } else {
                let our_settings = ConnectionSettings { parity: parity.spec_other(), ..settings };
                (
                    Some(
                        HandshakeMessageView::HelloYourself {
                            connection_settings: our_settings,
                            message_payload_schema: our_schema,
                            metadata,
                        },
                    ),
                    Ok(
                        AcceptorPendingView {
                            our_settings,
                            our_schema,
                            peer_settings: connection_settings,
                            peer_schema: message_payload_schema,
                            peer_metadata,
                        },
                    ),
                )
            }
        },
        _ => (None, Err(HandshakeErrorView::Protocol("expected Hello"@))),
    }
}

/// What the acceptor does with the initiator's confirmation: `LetsGo`
/// completes, `Sorry` ends with the peer's reason, anything else is a
/// protocol error.
pub open spec fn spec_acceptor_on_reply(
    pending: AcceptorPendingView,
    msg: HandshakeMessageView,
) -> Result<HandshakeResultView, HandshakeErrorView> {
    match msg {
        HandshakeMessageView::LetsGo => Ok(
            HandshakeResultView {
                role: SessionRole::Acceptor,
                our_settings: pending.our_settings,
                peer_settings: pending.peer_settings,
                our_schema: pending.our_schema,
                peer_schema: pending.peer_schema,
                peer_metadata: pending.peer_metadata,
            },
        ),
        HandshakeMessageView::Sorry { reason } => Err(HandshakeErrorView::Sorry(reason)),
        _ => Err(HandshakeErrorView::Protocol("expected LetsGo or Sorry"@)),
    }
}

/// Starts the handshake as acceptor: a zero local credit fails before any
/// frame is read.
pub fn acceptor_start(settings: ConnectionSettings, metadata: Metadata, our_schema: Vec<u8>) -> (r: Result<
    AcceptorAwaitingHello,
    HandshakeError,
>)
    ensures
        r is Err <==> settings.initial_channel_credit == 0,
        r matches Err(e) ==> e@ == HandshakeErrorView::Protocol(credit_zero_reason()),
        r matches Ok(st) ==> {
            &&& st.settings() == settings
            &&& st.our_schema() == our_schema@
            &&& st.metadata() == metadata
        },
{
    validate_initial_channel_credit(&settings)?;
    Ok(AcceptorAwaitingHello { settings, our_schema, metadata })
}

/// Takes the first frame (see [`spec_acceptor_on_hello`]).
pub fn acceptor_on_hello(state: AcceptorAwaitingHello, msg: HandshakeMessage) -> (r: Step<AcceptorAwaitingLetsGo>)
    ensures
        (send_view(r.send), outcome_view(r.outcome)) == spec_acceptor_on_hello(
            state.settings(),
            state.our_schema(),
            state.metadata(),
            msg@,
        ),
{
    match msg {
        HandshakeMessage::Hello(hello) => {
            if hello.connection_settings.initial_channel_credit == 0 {
                Step {
                    send: Some(HandshakeMessage::Sorry(Sorry { reason: credit_zero_reason_string() })),
                    outcome: Err(HandshakeError::Protocol(credit_zero_reason_string())),
                }
            } else {
                let our_settings = ConnectionSettings { parity: hello.parity.other(), ..state.settings };
                let hy = HelloYourself {
                    connection_settings: our_settings,
                    message_payload_schema: copy_bytes(&state.our_schema),
                    metadata: state.metadata,
                };
                let pending = AcceptorAwaitingLetsGo {
                    our_settings,
                    our_schema: state.our_schema,
                    peer_settings: hello.connection_settings,
                    peer_schema: hello.message_payload_schema,
                    peer_metadata: hello.metadata,
                };
                Step { send: Some(HandshakeMessage::HelloYourself(hy)), outcome: Ok(pending) }
            }
        },
        _ => Step { send: None, outcome: Err(HandshakeError::Protocol(String::from_str("expected Hello"))) },
    }
}

/// Takes the initiator's confirmation (see [`spec_acceptor_on_reply`]).
pub fn acceptor_on_reply(state: AcceptorAwaitingLetsGo, msg: HandshakeMessage) -> (r: Result<
    HandshakeResult,
    HandshakeError,
>)
    ensures
        outcome_view(r) == spec_acceptor_on_reply(state@, msg@),
{
    match msg {
        HandshakeMessage::LetsGo(_) => Ok(
            HandshakeResult {
                role: SessionRole::Acceptor,
                our_settings: state.our_settings,
                peer_settings: state.peer_settings,
                our_schema: state.our_schema,
                peer_schema: state.peer_schema,
                peer_metadata: state.peer_metadata,
            },
        ),
        HandshakeMessage::Sorry(sorry) => Err(HandshakeError::Sorry(sorry.reason)),
        _ => Err(HandshakeError::Protocol(String::from_str("expected LetsGo or Sorry"))),
    }
}

/// A handshake between an initiator and an acceptor that both announce a
/// positive credit completes on both sides, and the two results agree: each
/// side's peer settings, schema and metadata are what the other side
/// announced, the roles differ, and the acceptor took the parity opposite to
/// the initiator's.
pub proof fn law_handshake_agreement(
    initiator_settings: ConnectionSettings,
    initiator_schema: Seq<u8>,
    initiator_metadata: Metadata,
    acceptor_settings: ConnectionSettings,
    acceptor_schema: Seq<u8>,
    acceptor_metadata: Metadata,
)
    requires
        initiator_settings.initial_channel_credit != 0,
        acceptor_settings.initial_channel_credit != 0,
    ensures
        ({
            let hello = spec_hello(initiator_settings, initiator_schema, initiator_metadata);
            let (answer, pending) = spec_acceptor_on_hello(
                acceptor_settings,
                acceptor_schema,
                acceptor_metadata,
                hello,
            );
            &&& answer is Some
            &&& pending is Ok
            &&& ({
                let (confirm, init_result) = spec_initiator_on_reply(
                    initiator_settings,
                    initiator_schema,
                    answer->0,
                );
                let acc_result = spec_acceptor_on_reply(pending->Ok_0, confirm->0);
                &&& confirm == Some(HandshakeMessageView::LetsGo)
                &&& init_result is Ok
                &&& acc_result is Ok
                &&& init_result->Ok_0.role == SessionRole::Initiator
                &&& acc_result->Ok_0.role == SessionRole::Acceptor
                &&& init_result->Ok_0.our_settings == initiator_settings
                &&& init_result->Ok_0.peer_settings == acc_result->Ok_0.our_settings
                &&& acc_result->Ok_0.peer_settings == init_result->Ok_0.our_settings
                &&& acc_result->Ok_0.our_settings.parity == initiator_settings.parity.spec_other()
                &&& acc_result->Ok_0.our_settings.max_concurrent_requests == acceptor_settings.max_concurrent_requests
                &&& acc_result->Ok_0.our_settings.initial_channel_credit == acceptor_settings.initial_channel_credit
                &&& init_result->Ok_0.peer_settings.max_concurrent_requests == acceptor_settings.max_concurrent_requests
                &&& init_result->Ok_0.peer_settings.initial_channel_credit == acceptor_settings.initial_channel_credit
                &&& init_result->Ok_0.peer_schema == acceptor_schema
                &&& acc_result->Ok_0.peer_schema == initiator_schema
                &&& init_result->Ok_0.peer_metadata == acceptor_metadata
                &&& acc_result->Ok_0.peer_metadata == initiator_metadata
            })
        }),
{
}

/// A zero initial credit announced by either side fails the handshake with
/// the credit protocol error, and the side that notices it tells the peer
/// `Sorry` with the same reason.
pub proof fn law_zero_credit_refused(
    initiator_settings: ConnectionSettings,
    initiator_schema: Seq<u8>,
    initiator_metadata: Metadata,
    acceptor_settings: ConnectionSettings,
    acceptor_schema: Seq<u8>,
    acceptor_metadata: Metadata,
    answer: HandshakeMessageView,
)
    ensures
        initiator_settings.initial_channel_credit == 0 ==> spec_acceptor_on_hello(
            acceptor_settings,
            acceptor_schema,
            acceptor_metadata,
            spec_hello(initiator_settings, initiator_schema, initiator_metadata),
        ) == (
            Some(HandshakeMessageView::Sorry { reason: credit_zero_reason() }),
            Err::<AcceptorPendingView, HandshakeErrorView>(HandshakeErrorView::Protocol(credit_zero_reason())),
        ),
        (answer matches HandshakeMessageView::HelloYourself { connection_settings, .. }
            && connection_settings.initial_channel_credit == 0) ==> spec_initiator_on_reply(
            initiator_settings,
            initiator_schema,
            answer,
        ) == (
            Some(HandshakeMessageView::Sorry { reason: credit_zero_reason() }),
            Err::<HandshakeResultView, HandshakeErrorView>(HandshakeErrorView::Protocol(credit_zero_reason())),
        ),
{
}

/// An acceptor answering a `Hello` with a positive credit announces its own
/// limits, whatever the initiator announced: its concurrency limit and
/// initial credit are its own settings', and only its parity is taken from
/// the `Hello` (the opposite one). It keeps the same settings as its own for
/// the session and records the initiator's as the peer's.
pub proof fn law_acceptor_announces_its_own_limits(
    settings: ConnectionSettings,
    our_schema: Seq<u8>,
    metadata: Metadata,
    msg: HandshakeMessageView,
)
    requires
        msg matches HandshakeMessageView::Hello { connection_settings, .. }
            && connection_settings.initial_channel_credit != 0,
    ensures
        ({
            let (answer, pending) = spec_acceptor_on_hello(settings, our_schema, metadata, msg);
            let announced = answer->0->HelloYourself_connection_settings;
            &&& answer is Some
            &&& answer->0 is HelloYourself
            &&& announced.max_concurrent_requests == settings.max_concurrent_requests
            &&& announced.initial_channel_credit == settings.initial_channel_credit
            &&& announced.parity != msg->Hello_parity
            &&& pending is Ok
            &&& pending->Ok_0.our_settings == announced
            &&& pending->Ok_0.peer_settings == msg->Hello_connection_settings
        }),
{
}

} // verus!
