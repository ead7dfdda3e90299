//! Connection setup decisions: which transport an address names, whether a
//! channel capacity is acceptable, where a server binds, and the waiting and
//! backing off between connection attempts. Opening sockets, timers and
//! running sessions are the caller's part: each function here takes what the
//! caller observed and says what to do next.
//!
//! Durations and instants are counted in nanoseconds.

use crate::metadata::Metadata;
use crate::text::{debug_quote, debug_str};
use vstd::prelude::*;

verus! {

/// The flow-control credit a channel starts with unless configured.
pub const DEFAULT_INITIAL_CHANNEL_CREDIT: u32 = 16;

/// How long one connection attempt may take unless configured.
pub const DEFAULT_CONNECT_TIMEOUT_NANOS: u128 = 5_000_000_000;

/// The first wait after a failed attempt.
pub const INITIAL_CONNECT_BACKOFF_MIN_NANOS: u128 = 100_000_000;

/// The longest wait between two attempts.
pub const INITIAL_CONNECT_BACKOFF_MAX_NANOS: u128 = 5_000_000_000;

/// Errors of establishing a session.
#[derive(Debug)]
pub enum SessionError {
    Io(std::io::Error),
    Protocol(String),
    ConnectTimeout,
}

/// The content of a [`SessionError`].
pub enum SessionErrorView {
    Io,
    Protocol(Seq<char>),
    ConnectTimeout,
}

impl View for SessionError {
    type V = SessionErrorView;

    open spec fn view(&self) -> SessionErrorView {
        match self {
            SessionError::Io(_) => SessionErrorView::Io,
            SessionError::Protocol(m) => SessionErrorView::Protocol(m@),
            SessionError::ConnectTimeout => SessionErrorView::ConnectTimeout,
        }
    }
}

impl SessionError {
    /// Whether another attempt may succeed where this one failed: I/O
    /// errors and connect timeouts.
    pub open spec fn spec_is_transient(&self) -> bool {
        self is Io || self is ConnectTimeout
    }

    /// Whether another attempt may succeed where this one failed.
    pub fn is_transient(&self) -> (b: bool)
        ensures
            b == self.spec_is_transient(),
    {
        match self {
            SessionError::Io(_) => true,
            SessionError::ConnectTimeout => true,
            SessionError::Protocol(_) => false,
        }
    }
}

/// Errors of serving on an address.
#[derive(Debug)]
pub enum ServeError {
    Io(std::io::Error),
    Session(SessionError),
    UnsupportedScheme { scheme: String },
}

/// The content of a [`ServeError`].
pub enum ServeErrorView {
    Io,
    Session(SessionErrorView),
    UnsupportedScheme { scheme: Seq<char> },
}

impl View for ServeError {
    type V = ServeErrorView;

    open spec fn view(&self) -> ServeErrorView {
        match self {
            ServeError::Io(_) => ServeErrorView::Io,
            ServeError::Session(e) => ServeErrorView::Session(e@),
            ServeError::UnsupportedScheme { scheme } => ServeErrorView::UnsupportedScheme {
                scheme: scheme@,
            },
        }
    }
}

/// The text of the error for a zero channel capacity.
pub open spec fn capacity_zero_reason() -> Seq<char> {
    "channel_capacity must be greater than zero"@
}

/// A zero channel capacity is a protocol error.
pub fn validate_channel_capacity(channel_capacity: u32) -> (r: Result<(), SessionError>)
    ensures
        r is Err <==> channel_capacity == 0,
        r matches Err(e) ==> e@ == SessionErrorView::Protocol(capacity_zero_reason()),
{
    if channel_capacity == 0 {
        return Err(SessionError::Protocol(String::from_str("channel_capacity must be greater than zero")));
    }
    Ok(())
}

/// `://` starts at `i`.
pub open spec fn sep_at(s: Seq<char>, i: int) -> bool {
    0 <= i && i + 3 <= s.len() && s[i] == ':' && s[i + 1] == '/' && s[i + 2] == '/'
}

/// The first `://` starts at `i`.
pub open spec fn first_sep(s: Seq<char>, i: int) -> bool {
    sep_at(s, i) && forall|j: int| 0 <= j < i ==> !sep_at(s, j)
}

/// An address split at its first `://` into scheme and rest; an address
/// without one is a TCP address.
pub open spec fn split_scheme(s: Seq<char>) -> (Seq<char>, Seq<char>) {
    if exists|i: int| first_sep(s, i) {
        let i = choose|i: int| first_sep(s, i);
        (s.subrange(0, i), s.subrange(i + 3, s.len() as int))
    } else {
        ("tcp"@, s)
    }
}

/// At most one position is the first `://`.
pub proof fn lemma_first_sep_unique(s: Seq<char>, i: int, j: int)
    requires
        first_sep(s, i),
        first_sep(s, j),
    ensures
        i == j,
{
}

/// The split of an address whose first `://` is at `i`.
pub proof fn lemma_split_scheme_at(s: Seq<char>, i: int)
    requires
        first_sep(s, i),
    ensures
        split_scheme(s) == (s.subrange(0, i), s.subrange(i + 3, s.len() as int)),
{
    let k = choose|k: int| first_sep(s, k);
    lemma_first_sep_unique(s, i, k);
}

fn find_scheme_separator(s: &str) -> (r: Option<usize>)
    ensures
        match r {
            Some(i) => first_sep(s@, i as int),
            None => forall|j: int| !sep_at(s@, j),
        },
{
    let n = s.unicode_len();
    let mut i: usize = 0;
    while n - i >= 3
        invariant
            n == s@.len(),
            i <= n,
            forall|j: int| 0 <= j < i ==> !sep_at(s@, j),
        decreases n - i,
    {
        if s.get_char(i) == ':' && s.get_char(i + 1) == '/' && s.get_char(i + 2) == '/' {
            return Some(i);
        }
        i += 1;
    }
    None
}

/// Splits an address into scheme and rest, as `split_once("://")` with a
/// default scheme of `tcp`.
fn split_address(addr: &str) -> (r: (String, String))
    ensures
        (r.0@, r.1@) == split_scheme(addr@),
{
    match find_scheme_separator(addr) {
        Some(i) => {
            proof {
                lemma_split_scheme_at(addr@, i as int);
            }
            let n = addr.unicode_len();
            let scheme = String::from_str(addr.substring_char(0, i));
            let host = String::from_str(addr.substring_char(i + 3, n));
            (scheme, host)
        },
        None => {
            assert(!exists|k: int| first_sep(addr@, k));
            (String::from_str("tcp"), String::from_str(addr))
        },
    }
}

/// Where a client connects.
pub enum ConnectAddress {
    /// A TCP `host:port`.
    Tcp(String),
    /// A Unix socket path or Windows pipe name.
    Local(String),
    /// A WebSocket URL, scheme included.
    Ws(String),
}

/// The content of a [`ConnectAddress`].
pub enum ConnectAddressView {
    Tcp(Seq<char>),
    Local(Seq<char>),
    Ws(Seq<char>),
}

impl View for ConnectAddress {
    type V = ConnectAddressView;

    open spec fn view(&self) -> ConnectAddressView {
        match self {
            ConnectAddress::Tcp(h) => ConnectAddressView::Tcp(h@),
            ConnectAddress::Local(h) => ConnectAddressView::Local(h@),
            ConnectAddress::Ws(u) => ConnectAddressView::Ws(u@),
        }
    }
}

/// The transport an address string names: `tcp://` or no scheme for TCP,
/// `local://` for a local socket, `ws://` and `wss://` for WebSocket; any
/// other scheme names none.
pub open spec fn connect_address(addr: Seq<char>) -> Option<ConnectAddressView> {
    let (scheme, host) = split_scheme(addr);
    if scheme == "tcp"@ {
        Some(ConnectAddressView::Tcp(host))
    } else if scheme == "local"@ {
        Some(ConnectAddressView::Local(host))
    } else if scheme == "ws"@ || scheme == "wss"@ {
        Some(ConnectAddressView::Ws(scheme + "://"@ + host))
    } else {
        None
    }
}

/// The message for an address whose scheme names no transport.
pub open spec fn unknown_scheme_message(scheme: Seq<char>) -> Seq<char> {
    "unknown transport scheme: "@ + debug_str(scheme)
}

/// The error for a scheme that names no transport, given the scheme as its
/// `Debug` rendering shows it.
pub fn unknown_scheme_error(quoted_scheme: &str) -> (e: SessionError)
    ensures
        e@ == SessionErrorView::Protocol("unknown transport scheme: "@ + quoted_scheme@),
{
    let mut m = String::from_str("unknown transport scheme: ");
    m.append(quoted_scheme);
    SessionError::Protocol(m)
}

/// Picks the transport for a client address.
pub fn parse_connect_address(addr: String) -> (r: Result<ConnectAddress, SessionError>)
    ensures
        match r {
            Ok(a) => connect_address(addr@) == Some(a@),
            Err(e) => connect_address(addr@) is None && e@ == SessionErrorView::Protocol(
                unknown_scheme_message(split_scheme(addr@).0),
            ),
        },
{
    let (scheme, host) = split_address(addr.as_str());
    if scheme == String::from_str("tcp") {
        Ok(ConnectAddress::Tcp(host))
    } else if scheme == String::from_str("local") {
        Ok(ConnectAddress::Local(host))
    } else if scheme == String::from_str("ws") || scheme == String::from_str("wss") {
        let mut url = scheme;
        url.append("://");
        url.append(host.as_str());
        Ok(ConnectAddress::Ws(url))
    } else {
        let quoted = debug_quote(scheme.as_str());
        Err(unknown_scheme_error(quoted.as_str()))
    }
}

/// Where a server listens: a TCP or WebSocket `host:port`, a local socket
/// path, or a TLS WebSocket address with its certificate query.
pub enum ServeTarget {
    Tcp(String),
    Local(String),
    Ws(String),
    Wss(String),
}

/// The content of a [`ServeTarget`].
pub enum ServeTargetView {
    Tcp(Seq<char>),
    Local(Seq<char>),
    Ws(Seq<char>),
    Wss(Seq<char>),
}

impl View for ServeTarget {
    type V = ServeTargetView;

    open spec fn view(&self) -> ServeTargetView {
        match self {
            ServeTarget::Tcp(h) => ServeTargetView::Tcp(h@),
            ServeTarget::Local(h) => ServeTargetView::Local(h@),
            ServeTarget::Ws(h) => ServeTargetView::Ws(h@),
            ServeTarget::Wss(h) => ServeTargetView::Wss(h@),
        }
    }
}

/// Where a server address says to listen: `tcp://` or no scheme, `local://`,
/// `ws://` or `wss://`, each with the rest of the address; any other scheme
/// names none.
pub open spec fn serve_target_for(addr: Seq<char>) -> Option<ServeTargetView> {
    let (scheme, host) = split_scheme(addr);
    if scheme == "tcp"@ {
        Some(ServeTargetView::Tcp(host))
    } else if scheme == "local"@ {
        Some(ServeTargetView::Local(host))
    } else if scheme == "ws"@ {
        Some(ServeTargetView::Ws(host))
    } else if scheme == "wss"@ {
        Some(ServeTargetView::Wss(host))
    } else {
        None
    }
}

/// Checks the channel capacity, then picks where to listen.
pub fn serve_target(addr: &str, channel_capacity: u32) -> (r: Result<ServeTarget, ServeError>)
    ensures
        channel_capacity == 0 ==> (r matches Err(e) && e@ == ServeErrorView::Session(
            SessionErrorView::Protocol(capacity_zero_reason()),
        )),
        channel_capacity != 0 ==> match r {
            Ok(t) => serve_target_for(addr@) == Some(t@),
            Err(e) => serve_target_for(addr@) is None && e@ == (ServeErrorView::UnsupportedScheme {
                scheme: split_scheme(addr@).0,
            }),
        },
{
    if let Err(e) = validate_channel_capacity(channel_capacity) {
        return Err(ServeError::Session(e));
    }
    let (scheme, host) = split_address(addr);
    if scheme == String::from_str("tcp") {
        Ok(ServeTarget::Tcp(host))
    } else if scheme == String::from_str("local") {
        Ok(ServeTarget::Local(host))
    } else if scheme == String::from_str("ws") {
        Ok(ServeTarget::Ws(host))
    } else if scheme == String::from_str("wss") {
        Ok(ServeTarget::Wss(host))
    } else {
        Err(ServeError::UnsupportedScheme { scheme })
    }
}

/// The smaller of two durations.
pub open spec fn min_nanos(a: u128, b: u128) -> u128 {
    if a <= b {
        a
    } else {
        b
    }
}

/// How the attempts to connect go on.
#[derive(Clone, Copy, Debug, PartialEq, Eq, Structural)]
pub enum EstablishPlan {
    /// One attempt, whatever it gives.
    Once,
    /// Attempts until `deadline`, waiting `backoff` after a transient failure.
    Retry { deadline: u128, backoff: u128 },
}

impl EstablishPlan {
    /// The wait between attempts stays between its floor and its cap.
    pub open spec fn wf(&self) -> bool {
        match self {
            EstablishPlan::Once => true,
            EstablishPlan::Retry { backoff, .. } => INITIAL_CONNECT_BACKOFF_MIN_NANOS <= *backoff
                <= INITIAL_CONNECT_BACKOFF_MAX_NANOS,
        }
    }
}

/// The plan at the start: one attempt, or attempts until the service wait
/// runs out, starting with the shortest wait.
pub open spec fn initial_plan(wait_for_service: Option<u128>, now: u128) -> EstablishPlan {
    match wait_for_service {
        None => EstablishPlan::Once,
        Some(t) => EstablishPlan::Retry {
            deadline: (now + t) as u128,
            backoff: INITIAL_CONNECT_BACKOFF_MIN_NANOS,
        },
    }
}

/// Checks the capacity, picks the transport and sets up the attempts.
pub fn plan_establish(channel_capacity: u32, addr: &str, wait_for_service: Option<u128>, now: u128) -> (r:
    Result<(ConnectAddress, EstablishPlan), SessionError>)
    requires
        wait_for_service matches Some(t) ==> now + t <= u128::MAX,
    ensures
        channel_capacity == 0 ==> (r matches Err(e) && e@ == SessionErrorView::Protocol(
            capacity_zero_reason(),
        )),
        channel_capacity != 0 ==> match r {
            Ok((a, p)) => connect_address(addr@) == Some(a@) && p == initial_plan(wait_for_service, now),
            Err(e) => connect_address(addr@) is None && e@ == SessionErrorView::Protocol(
                unknown_scheme_message(split_scheme(addr@).0),
            ),
        },
        r matches Ok((_, p)) ==> p.wf(),
{
    validate_channel_capacity(channel_capacity)?;
    let a = parse_connect_address(String::from_str(addr))?;
    let p = match wait_for_service {
        None => EstablishPlan::Once,
        Some(t) => EstablishPlan::Retry { deadline: now + t, backoff: INITIAL_CONNECT_BACKOFF_MIN_NANOS },
    };
    Ok((a, p))
}

/// How long the next attempt may take: unbounded for a single attempt, the
/// time left before the deadline otherwise; none at all once it has passed.
pub fn attempt_budget(plan: &EstablishPlan, now: u128) -> (r: Result<Option<u128>, SessionError>)
    ensures
        match *plan {
            EstablishPlan::Once => r matches Ok(None),
            EstablishPlan::Retry { deadline, .. } => if now >= deadline {
                r matches Err(e) && e@ == SessionErrorView::ConnectTimeout
            } else {
                r matches Ok(Some(b)) && b == deadline - now
            },
        },
{
    match plan {
        EstablishPlan::Once => Ok(None),
        EstablishPlan::Retry { deadline, .. } => {
            if now >= *deadline {
                Err(SessionError::ConnectTimeout)
            } else {
                Ok(Some(*deadline - now))
            }
        },
    }
}

/// What to do after an attempt.
pub enum AttemptVerdict<C> {
    /// Stop with this result.
    Finish(Result<C, SessionError>),
    /// Wait this long, then attempt again.
    Wait { nanos: u128 },
}

/// What an attempt gave; `None` is an attempt that ran out of its budget.
pub open spec fn attempt_result<C>(outcome: Option<Result<C, SessionError>>) -> Result<C, SessionError> {
    match outcome {
        Some(r) => r,
        None => Err(SessionError::ConnectTimeout),
    }
}

/// Whether a result ends the attempts: a success, or an error that another
/// attempt would not mend.
pub open spec fn ends_attempts<C>(r: Result<C, SessionError>) -> bool {
    match r {
        Ok(_) => true,
        Err(e) => !e.spec_is_transient(),
    }
}

/// Decides after an attempt. A single attempt's result is final. While
/// waiting for the service, a success or an error other than an I/O error or
/// a timeout is final, and so is any failure once the deadline has passed;
/// otherwise the caller waits the current backoff (never past the deadline)
/// and the backoff doubles, up to its cap.
pub fn after_attempt<C>(plan: &mut EstablishPlan, outcome: Option<Result<C, SessionError>>, now: u128) -> (v:
    AttemptVerdict<C>)
    requires
        old(plan).wf(),
    ensures
        final(plan).wf(),
        match *old(plan) {
            EstablishPlan::Once => *final(plan) == *old(plan) && v == AttemptVerdict::Finish(
                attempt_result(outcome),
            ),
            EstablishPlan::Retry { deadline, backoff } => if ends_attempts(attempt_result(outcome))
                || now >= deadline {
                *final(plan) == *old(plan) && v == AttemptVerdict::Finish(attempt_result(outcome))
            } else {
                &&& v == AttemptVerdict::<C>::Wait { nanos: min_nanos(backoff, (deadline - now) as u128) }
                &&& *final(plan) == (EstablishPlan::Retry {
                    deadline,
                    backoff: min_nanos((2 * backoff) as u128, INITIAL_CONNECT_BACKOFF_MAX_NANOS),
                })
            },
        },
{
    let result = match outcome {
        Some(r) => r,
        None => Err(SessionError::ConnectTimeout),
    };
    match *plan {
        EstablishPlan::Once => AttemptVerdict::Finish(result),
        EstablishPlan::Retry { deadline, backoff } => {
            let transient = match &result {
                Ok(_) => false,
                Err(e) => e.is_transient(),
            };
            if !transient || now >= deadline {
                return AttemptVerdict::Finish(result);
            }
            let remaining = deadline - now;
            let sleep = if backoff <= remaining {
                backoff
            } else {
                remaining
            };
            let doubled = 2 * backoff;
            let next = if doubled <= INITIAL_CONNECT_BACKOFF_MAX_NANOS {
                doubled
            } else {
                INITIAL_CONNECT_BACKOFF_MAX_NANOS
            };
            *plan = EstablishPlan::Retry { deadline, backoff: next };
            AttemptVerdict::Wait { nanos: sleep }
        },
    }
}

/// A client connection being configured: `R` is the router for connections
/// the peer opens back, `O` the observer handle.
pub struct ConnectBuilder<R, O> {
    addr: String,
    metadata: Metadata,
    on_connection: Option<R>,
    connect_timeout: Option<u128>,
    channel_capacity: u32,
    observer: Option<O>,
    wait_for_service: Option<u128>,
}

/// The settings of a [`ConnectBuilder`].
pub struct ConnectSettings<R, O> {
    pub addr: Seq<char>,
    pub metadata: Metadata,
    pub on_connection: Option<R>,
    pub connect_timeout: Option<u128>,
    pub channel_capacity: u32,
    pub observer: Option<O>,
    pub wait_for_service: Option<u128>,
}

impl<R, O> View for ConnectBuilder<R, O> {
    type V = ConnectSettings<R, O>;

    closed spec fn view(&self) -> ConnectSettings<R, O> {
        ConnectSettings {
            addr: self.addr@,
            metadata: self.metadata,
            on_connection: self.on_connection,
            connect_timeout: self.connect_timeout,
            channel_capacity: self.channel_capacity,
            observer: self.observer,
            wait_for_service: self.wait_for_service,
        }
    }
}

/// Starts configuring a connection to `addr`: null metadata, no router, a
/// five-second connect timeout, the default channel capacity, no observer
/// and a single attempt.
pub fn connect<R, O>(addr: &str) -> (b: ConnectBuilder<R, O>)
    ensures
        b@ == (ConnectSettings::<R, O> {
            addr: addr@,
            metadata: b@.metadata,
            on_connection: None,
            connect_timeout: Some(DEFAULT_CONNECT_TIMEOUT_NANOS),
            channel_capacity: DEFAULT_INITIAL_CHANNEL_CREDIT,
            observer: None,
            wait_for_service: None,
        }),
        b@.metadata.wf(),
        !b@.metadata.is_object(),
        b@.metadata.entries().len() == 0,
{
    ConnectBuilder {
        addr: String::from_str(addr),
        metadata: Metadata::new(),
        on_connection: None,
        connect_timeout: Some(DEFAULT_CONNECT_TIMEOUT_NANOS),
        channel_capacity: DEFAULT_INITIAL_CHANNEL_CREDIT,
        observer: None,
        wait_for_service: None,
    }
}

impl<R, O> ConnectBuilder<R, O> {
    /// Routes the connections the peer opens back.
    pub fn on_connection(self, router: R) -> (b: Self)
        ensures
            b@ == (ConnectSettings { on_connection: Some(router), ..self@ }),
    {
        ConnectBuilder { on_connection: Some(router), ..self }
    }

    /// Sends this metadata with the handshake.
    pub fn metadata(self, metadata: Metadata) -> (b: Self)
        ensures
            b@ == (ConnectSettings { metadata, ..self@ }),
    {
        ConnectBuilder { metadata, ..self }
    }

    /// Bounds each attempt.
    pub fn connect_timeout(self, timeout_nanos: u128) -> (b: Self)
        ensures
            b@ == (ConnectSettings { connect_timeout: Some(timeout_nanos), ..self@ }),
    {
        ConnectBuilder { connect_timeout: Some(timeout_nanos), ..self }
    }

    /// The initial credit of each channel.
    pub fn channel_capacity(self, channel_capacity: u32) -> (b: Self)
        ensures
            b@ == (ConnectSettings { channel_capacity, ..self@ }),
    {
        ConnectBuilder { channel_capacity, ..self }
    }

    /// Attaches an observer.
    pub fn observer(self, observer: O) -> (b: Self)
        ensures
            b@ == (ConnectSettings { observer: Some(observer), ..self@ }),
    {
        ConnectBuilder { observer: Some(observer), ..self }
    }

    /// Attaches a shared observer handle.
    pub fn observer_handle(self, observer: O) -> (b: Self)
        ensures
            b@ == (ConnectSettings { observer: Some(observer), ..self@ }),
    {
        ConnectBuilder { observer: Some(observer), ..self }
    }

    /// Keeps attempting, while failures are transient, until `timeout_nanos`
    /// has passed.
    pub fn wait_for_service(self, timeout_nanos: u128) -> (b: Self)
        ensures
            b@ == (ConnectSettings { wait_for_service: Some(timeout_nanos), ..self@ }),
    {
        ConnectBuilder { wait_for_service: Some(timeout_nanos), ..self }
    }

    /// How long to keep attempting, if at all.
    pub fn wait_for_service_nanos(&self) -> (r: Option<u128>)
        ensures
            r == self@.wait_for_service,
    {
        self.wait_for_service
    }

    /// The start of establishing at time `now`: the capacity check, the
    /// transport and the plan of attempts.
    pub fn plan(&self, now: u128) -> (r: Result<(ConnectAddress, EstablishPlan), SessionError>)
        requires
            self@.wait_for_service matches Some(t) ==> now + t <= u128::MAX,
        ensures
            self@.channel_capacity == 0 ==> (r matches Err(e) && e@ == SessionErrorView::Protocol(
                capacity_zero_reason(),
            )),
            self@.channel_capacity != 0 ==> match r {
                Ok((a, p)) => connect_address(self@.addr) == Some(a@) && p == initial_plan(
                    self@.wait_for_service,
                    now,
                ),
                Err(e) => connect_address(self@.addr) is None && e@ == SessionErrorView::Protocol(
                    unknown_scheme_message(split_scheme(self@.addr).0),
                ),
            },
            r matches Ok((_, p)) ==> p.wf(),
    {
        plan_establish(self.channel_capacity, self.addr.as_str(), self.wait_for_service, now)
    }

    /// Takes the builder apart: metadata, router, connect timeout, channel
    /// capacity and observer.
    pub fn into_parts(self) -> (r: (Metadata, Option<R>, Option<u128>, u32, Option<O>))
        ensures
            r == (self@.metadata, self@.on_connection, self@.connect_timeout, self@.channel_capacity,
            self@.observer),
    {
        (self.metadata, self.on_connection, self.connect_timeout, self.channel_capacity, self.observer)
    }
}

/// A server being configured: `R` routes incoming connections, `O` is the
/// observer handle.
pub struct ServeBuilder<R, O> {
    addr: String,
    router: R,
    channel_capacity: u32,
    observer: Option<O>,
}

/// The settings of a [`ServeBuilder`].
pub struct ServeSettings<R, O> {
    pub addr: Seq<char>,
    pub router: R,
    pub channel_capacity: u32,
    pub observer: Option<O>,
}

impl<R, O> View for ServeBuilder<R, O> {
    type V = ServeSettings<R, O>;

    closed spec fn view(&self) -> ServeSettings<R, O> {
        ServeSettings {
            addr: self.addr@,
            router: self.router,
            channel_capacity: self.channel_capacity,
            observer: self.observer,
        }
    }
}

/// Starts configuring a server on `addr` with `router`, the default channel
/// capacity and no observer.
pub fn serve<R, O>(addr: &str, router: R) -> (b: ServeBuilder<R, O>)
    ensures
        b@ == (ServeSettings::<R, O> {
            addr: addr@,
            router,
            channel_capacity: DEFAULT_INITIAL_CHANNEL_CREDIT,
            observer: None,
        }),
{
    ServeBuilder {
        addr: String::from_str(addr),
        router,
        channel_capacity: DEFAULT_INITIAL_CHANNEL_CREDIT,
        observer: None,
    }
}

impl<R, O> ServeBuilder<R, O> {
    /// The initial credit of each channel.
    pub fn channel_capacity(self, channel_capacity: u32) -> (b: Self)
        ensures
            b@ == (ServeSettings { channel_capacity, ..self@ }),
    {
        ServeBuilder { channel_capacity, ..self }
    }

    /// Attaches an observer.
    pub fn observer(self, observer: O) -> (b: Self)
        ensures
            b@ == (ServeSettings { observer: Some(observer), ..self@ }),
    {
        ServeBuilder { observer: Some(observer), ..self }
    }

    /// Attaches a shared observer handle.
    pub fn observer_handle(self, observer: O) -> (b: Self)
        ensures
            b@ == (ServeSettings { observer: Some(observer), ..self@ }),
    {
        ServeBuilder { observer: Some(observer), ..self }
    }

    /// Where to listen, after the capacity check.
    pub fn target(&self) -> (r: Result<ServeTarget, ServeError>)
        ensures
            self@.channel_capacity == 0 ==> (r matches Err(e) && e@ == ServeErrorView::Session(
                SessionErrorView::Protocol(capacity_zero_reason()),
            )),
            self@.channel_capacity != 0 ==> match r {
                Ok(t) => serve_target_for(self@.addr) == Some(t@),
                Err(e) => serve_target_for(self@.addr) is None && e@ == (
                ServeErrorView::UnsupportedScheme { scheme: split_scheme(self@.addr).0 }),
            },
    {
        serve_target(self.addr.as_str(), self.channel_capacity)
    }

    /// Takes the builder apart: router, channel capacity and observer.
    pub fn into_parts(self) -> (r: (R, u32, Option<O>))
        ensures
            r == (self@.router, self@.channel_capacity, self@.observer),
    {
        (self.router, self.channel_capacity, self.observer)
    }
}

/// A server on a listener already bound, being configured.
pub struct ServeListenerBuilder<L, R, O> {
    listener: L,
    router: R,
    channel_capacity: u32,
    observer: Option<O>,
}

/// The settings of a [`ServeListenerBuilder`].
pub struct ServeListenerSettings<L, R, O> {
    pub listener: L,
    pub router: R,
    pub channel_capacity: u32,
    pub observer: Option<O>,
}

impl<L, R, O> View for ServeListenerBuilder<L, R, O> {
    type V = ServeListenerSettings<L, R, O>;

    closed spec fn view(&self) -> ServeListenerSettings<L, R, O> {
        ServeListenerSettings {
            listener: self.listener,
            router: self.router,
            channel_capacity: self.channel_capacity,
            observer: self.observer,
        }
    }
}

/// Starts configuring a server on `listener` with `router`, the default
/// channel capacity and no observer.
pub fn serve_listener<L, R, O>(listener: L, router: R) -> (b: ServeListenerBuilder<L, R, O>)
    ensures
        b@ == (ServeListenerSettings::<L, R, O> {
            listener,
            router,
            channel_capacity: DEFAULT_INITIAL_CHANNEL_CREDIT,
            observer: None,
        }),
{
    ServeListenerBuilder { listener, router, channel_capacity: DEFAULT_INITIAL_CHANNEL_CREDIT, observer: None }
}

impl<L, R, O> ServeListenerBuilder<L, R, O> {
    /// The initial credit of each channel.
    pub fn channel_capacity(self, channel_capacity: u32) -> (b: Self)
        ensures
            b@ == (ServeListenerSettings { channel_capacity, ..self@ }),
    {
        ServeListenerBuilder { channel_capacity, ..self }
    }

    /// Attaches an observer.
    pub fn observer(self, observer: O) -> (b: Self)
        ensures
            b@ == (ServeListenerSettings { observer: Some(observer), ..self@ }),
    {
        ServeListenerBuilder { observer: Some(observer), ..self }
    }

    /// Attaches a shared observer handle.
    pub fn observer_handle(self, observer: O) -> (b: Self)
        ensures
            b@ == (ServeListenerSettings { observer: Some(observer), ..self@ }),
    {
        ServeListenerBuilder { observer: Some(observer), ..self }
    }

    /// The check made before the first connection is accepted.
    pub fn check(&self) -> (r: Result<(), SessionError>)
        ensures
            r is Err <==> self@.channel_capacity == 0,
            r matches Err(e) ==> e@ == SessionErrorView::Protocol(capacity_zero_reason()),
    {
        validate_channel_capacity(self.channel_capacity)
    }

    /// Takes the builder apart: listener, router, channel capacity and
    /// observer.
    pub fn into_parts(self) -> (r: (L, R, u32, Option<O>))
        ensures
            r == (self@.listener, self@.router, self@.channel_capacity, self@.observer),
    {
        (self.listener, self.router, self.channel_capacity, self.observer)
    }
}

/// An address without `://` is a TCP address, used as it stands.
pub proof fn law_bare_address_is_tcp(addr: Seq<char>)
    requires
        forall|j: int| !sep_at(addr, j),
    ensures
        connect_address(addr) == Some(ConnectAddressView::Tcp(addr)),
{
    assert(!exists|k: int| first_sep(addr, k));
}

/// `tcp://` followed by a host is a TCP address of that host.
pub proof fn law_tcp_scheme_is_stripped(host: Seq<char>)
    ensures
        connect_address("tcp://"@ + host) == Some(ConnectAddressView::Tcp(host)),
{
    let addr = "tcp://"@ + host;
    reveal_strlit("tcp://");
    reveal_strlit("tcp");
    assert(first_sep(addr, 3));
    lemma_split_scheme_at(addr, 3);
    assert(addr.subrange(0, 3) =~= "tcp"@);
    assert(addr.subrange(6, addr.len() as int) =~= host);
}

/// `local://` followed by a path is a local-socket address of that path.
pub proof fn law_local_scheme_is_stripped(path: Seq<char>)
    ensures
        connect_address("local://"@ + path) == Some(ConnectAddressView::Local(path)),
{
    let addr = "local://"@ + path;
    reveal_strlit("local://");
    reveal_strlit("local");
    reveal_strlit("tcp");
    assert(first_sep(addr, 5));
    lemma_split_scheme_at(addr, 5);
    assert(addr.subrange(0, 5) =~= "local"@);
    assert(addr.subrange(8, addr.len() as int) =~= path);
}

/// A `ws://` address is a WebSocket address of the whole URL.
pub proof fn law_ws_url_is_kept(rest: Seq<char>)
    ensures
        connect_address("ws://"@ + rest) == Some(ConnectAddressView::Ws("ws://"@ + rest)),
{
    let addr = "ws://"@ + rest;
    reveal_strlit("ws://");
    reveal_strlit("ws");
    reveal_strlit("tcp");
    reveal_strlit("local");
    reveal_strlit("://");
    assert(first_sep(addr, 2));
    lemma_split_scheme_at(addr, 2);
    assert(addr.subrange(0, 2) =~= "ws"@);
    assert(addr.subrange(5, addr.len() as int) =~= rest);
    assert("ws"@ + "://"@ + rest =~= addr);
}

/// A server listens where its address says: `tcp://host` on TCP at the
/// host, `local://path` on the local socket at the path, `ws://host` and
/// `wss://host` for plain and secure WebSocket at the host (the scheme
/// stripped), and an address without a scheme on TCP at the whole address.
pub proof fn law_serve_target_follows_scheme(host: Seq<char>, bare: Seq<char>)
    requires
        forall|j: int| !sep_at(bare, j),
    ensures
        serve_target_for("tcp://"@ + host) == Some(ServeTargetView::Tcp(host)),
        serve_target_for("local://"@ + host) == Some(ServeTargetView::Local(host)),
        serve_target_for("ws://"@ + host) == Some(ServeTargetView::Ws(host)),
        serve_target_for("wss://"@ + host) == Some(ServeTargetView::Wss(host)),
        serve_target_for(bare) == Some(ServeTargetView::Tcp(bare)),
{
    reveal_strlit("tcp://");
    reveal_strlit("local://");
    reveal_strlit("ws://");
    reveal_strlit("wss://");
    reveal_strlit("tcp");
    reveal_strlit("local");
    reveal_strlit("ws");
    reveal_strlit("wss");
    let a = "tcp://"@ + host;
    assert(first_sep(a, 3));
    lemma_split_scheme_at(a, 3);
    assert(a.subrange(0, 3) =~= "tcp"@);
    assert(a.subrange(6, a.len() as int) =~= host);
    let b = "local://"@ + host;
    assert(first_sep(b, 5));
    lemma_split_scheme_at(b, 5);
    assert(b.subrange(0, 5) =~= "local"@);
    assert(b.subrange(8, b.len() as int) =~= host);
    let c = "ws://"@ + host;
    assert(first_sep(c, 2));
    lemma_split_scheme_at(c, 2);
    assert(c.subrange(0, 2) =~= "ws"@);
    assert(c.subrange(5, c.len() as int) =~= host);
    let d = "wss://"@ + host;
    assert(first_sep(d, 3));
    lemma_split_scheme_at(d, 3);
    assert(d.subrange(0, 3) =~= "wss"@);
    assert(d.subrange(6, d.len() as int) =~= host);
    assert("wss"@ != "tcp"@ && "wss"@ != "local"@ && "wss"@ != "ws"@) by {
        assert("wss"@[0] != "tcp"@[0]);
        assert("wss"@.len() != "local"@.len());
        assert("wss"@.len() != "ws"@.len());
    }
    assert(!exists|k: int| first_sep(bare, k));
}

/// A `wss://` address is a WebSocket address of the whole URL.
pub proof fn law_wss_url_is_kept(rest: Seq<char>)
    ensures
        connect_address("wss://"@ + rest) == Some(ConnectAddressView::Ws("wss://"@ + rest)),
{
    let addr = "wss://"@ + rest;
    reveal_strlit("wss://");
    reveal_strlit("wss");
    reveal_strlit("ws");
    reveal_strlit("tcp");
    reveal_strlit("local");
    reveal_strlit("://");
    assert(first_sep(addr, 3));
    lemma_split_scheme_at(addr, 3);
    assert(addr.subrange(0, 3) =~= "wss"@);
    assert(addr.subrange(6, addr.len() as int) =~= rest);
    assert("wss"@ != "tcp"@ && "wss"@ != "local"@ && "wss"@ != "ws"@) by {
        assert("wss"@[0] != "tcp"@[0]);
        assert("wss"@.len() != "local"@.len());
        assert("wss"@.len() != "ws"@.len());
    }
    assert("wss"@ + "://"@ + rest =~= addr);
}

} // verus!
