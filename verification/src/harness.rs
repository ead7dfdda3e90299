//! The decisions of the cross-language test harness: which subject runs how,
//! over which transport, and what a subject's output announces. Spawning
//! processes and reading their output is left to the caller.

use crate::handshake::{ConnectionSettings, Parity};
use crate::swift::{join, join_strings};
use crate::text::{decimal, push_decimal, trim, trim_whitespace};
use vstd::prelude::*;

verus! {

/// The language a test subject is written in.
#[derive(Clone, Copy, Debug, PartialEq, Eq, Structural)]
pub enum SubjectLanguage {
    Rust,
    Swift,
    TypeScript,
}

/// The transport a test subject talks over.
#[derive(Clone, Copy, Debug, PartialEq, Eq, Structural)]
pub enum SubjectTestTransport {
    Tcp,
    Ws,
}

/// A test subject: its language and transport.
#[derive(Clone, Copy, Debug, PartialEq, Eq, Structural)]
pub struct SubjectSpec {
    pub language: SubjectLanguage,
    pub transport: SubjectTestTransport,
}

impl SubjectSpec {
    /// A subject over TCP.
    pub fn tcp(language: SubjectLanguage) -> (s: Self)
        ensures
            s == (SubjectSpec { language, transport: SubjectTestTransport::Tcp }),
    {
        SubjectSpec { language, transport: SubjectTestTransport::Tcp }
    }

    /// A subject over WebSocket.
    pub fn ws(language: SubjectLanguage) -> (s: Self)
        ensures
            s == (SubjectSpec { language, transport: SubjectTestTransport::Ws }),
    {
        SubjectSpec { language, transport: SubjectTestTransport::Ws }
    }
}

/// How an in-process Rust pair is linked.
#[derive(Clone, Copy, Debug, PartialEq, Eq, Structural)]
pub enum RustTransport {
    Mem,
    Tcp,
}

/// A character in ASCII lower case.
pub open spec fn ascii_lower(c: char) -> char {
    if 'A' <= c <= 'Z' {
        ((c as u32) + 32) as char
    } else {
        c
    }
}

/// A text in ASCII lower case.
pub open spec fn ascii_lowercase(s: Seq<char>) -> Seq<char> {
    s.map_values(|c: char| ascii_lower(c))
}

/// The transport a setting names: `ws` in any ASCII case is WebSocket;
/// anything else, and no setting, is TCP.
pub open spec fn transport_for(setting: Option<Seq<char>>) -> SubjectTestTransport {
    match setting {
        Some(s) => if ascii_lowercase(s) == "ws"@ {
            SubjectTestTransport::Ws
        } else {
            SubjectTestTransport::Tcp
        },
        None => SubjectTestTransport::Tcp,
    }
}

fn lower_char(c: char) -> (r: char)
    ensures
        r == ascii_lower(c),
{
    if 'A' <= c && c <= 'Z' {
        proof {
            assert((c as u32) + 32 <= 0x7f);
        }
        ((c as u32 + 32) as u8) as char
    } else {
        c
    }
}

/// The transport the harness's transport setting selects.
pub fn transport_from_setting(setting: Option<&str>) -> (t: SubjectTestTransport)
    ensures
        t == transport_for(
            match setting {
                Some(s) => Some(s@),
                None => None,
            },
        ),
{
    match setting {
        None => SubjectTestTransport::Tcp,
        Some(s) => {
            proof {
                reveal_strlit("ws");
            }
            let n = s.unicode_len();
            if n != 2 {
                assert(ascii_lowercase(s@).len() != "ws"@.len());
                return SubjectTestTransport::Tcp;
            }
            let a = lower_char(s.get_char(0));
            let b = lower_char(s.get_char(1));
            if a == 'w' && b == 's' {
                assert(ascii_lowercase(s@) =~= "ws"@);
                SubjectTestTransport::Ws
            } else {
                assert(ascii_lowercase(s@)[0] == a);
                assert(ascii_lowercase(s@)[1] == b);
                SubjectTestTransport::Tcp
            }
        },
    }
}

/// The message for a server-listen request over another transport than TCP.
pub open spec fn server_listen_tcp_only() -> Seq<char> {
    "server-listen mode is only supported for TCP transport"@
}

/// Server-listen mode runs over TCP only.
pub fn server_listen_check(spec: SubjectSpec) -> (r: Result<(), String>)
    ensures
        r is Ok <==> spec.transport == SubjectTestTransport::Tcp,
        r matches Err(m) ==> m@ == server_listen_tcp_only(),
{
    match spec.transport {
        SubjectTestTransport::Tcp => Ok(()),
        SubjectTestTransport::Ws => Err(String::from_str("server-listen mode is only supported for TCP transport")),
    }
}

/// How a subject command is started.
pub enum SubjectLaunch {
    /// Through `sh -lc`, for shell scripts.
    Shell(String),
    /// As an executable.
    Direct(String),
}

/// A text ends with `.sh`.
pub open spec fn is_shell_script(cmd: Seq<char>) -> bool {
    cmd.len() >= 3 && cmd.subrange(cmd.len() - 3, cmd.len() as int) == ".sh"@
}

/// Shell scripts run through the shell; anything else runs directly.
pub fn subject_launch(cmd: &str) -> (l: SubjectLaunch)
    ensures
        match l {
            SubjectLaunch::Shell(c) => is_shell_script(cmd@) && c@ == cmd@,
            SubjectLaunch::Direct(c) => !is_shell_script(cmd@) && c@ == cmd@,
        },
{
    proof {
        reveal_strlit(".sh");
    }
    let n = cmd.unicode_len();
    let script = n >= 3 && cmd.get_char(n - 3) == '.' && cmd.get_char(n - 2) == 's' && cmd.get_char(n - 1)
        == 'h';
    proof {
        if n >= 3 {
            let tail = cmd@.subrange(n - 3, n as int);
            assert(tail[0] == cmd@[n - 3] && tail[1] == cmd@[n - 2] && tail[2] == cmd@[n - 1]);
            assert(script ==> tail =~= ".sh"@);
        }
    }
    if script {
        SubjectLaunch::Shell(String::from_str(cmd))
    } else {
        SubjectLaunch::Direct(String::from_str(cmd))
    }
}

/// What a line of a server subject's output means.
pub enum StdoutLine {
    /// The subject listens at this address.
    ListenAddr(String),
    /// The output ended before an address was announced.
    Closed,
    /// Any other output, trimmed, to pass on as log.
    Log(String),
}

/// `s` starts with `p`.
pub open spec fn has_prefix(s: Seq<char>, p: Seq<char>) -> bool {
    p.len() <= s.len() && s.subrange(0, p.len() as int) == p
}

/// The prefix of the line that announces the listen address.
pub open spec fn listen_addr_prefix() -> Seq<char> {
    "LISTEN_ADDR="@
}

fn strip_prefix(s: &str, p: &str) -> (r: Option<String>)
    ensures
        match r {
            Some(rest) => has_prefix(s@, p@) && rest@ == s@.subrange(p@.len() as int, s@.len() as int),
            None => !has_prefix(s@, p@),
        },
{
    let n = s.unicode_len();
    let m = p.unicode_len();
    if m > n {
        return None;
    }
    let mut i: usize = 0;
    while i < m
        invariant
            m <= n,
            n == s@.len(),
            m == p@.len(),
            i <= m,
            forall|j: int| 0 <= j < i ==> s@[j] == p@[j],
        decreases m - i,
    {
        if s.get_char(i) != p.get_char(i) {
            assert(s@.subrange(0, m as int)[i as int] != p@[i as int]);
            return None;
        }
        i += 1;
    }
    assert(s@.subrange(0, m as int) =~= p@);
    Some(String::from_str(s.substring_char(m, n)))
}

/// The meaning of a line read from a server subject's output: after
/// trimming, `LISTEN_ADDR=` announces the address; an empty read is the end
/// of the output; anything else is log.
pub fn classify_stdout_line(line: &str) -> (r: StdoutLine)
    ensures
        match r {
            StdoutLine::ListenAddr(a) => has_prefix(trim_whitespace(line@), listen_addr_prefix()) && a@
                == trim_whitespace(line@).subrange(12, trim_whitespace(line@).len() as int),
            StdoutLine::Closed => !has_prefix(trim_whitespace(line@), listen_addr_prefix()) && line@.len()
                == 0,
            StdoutLine::Log(t) => !has_prefix(trim_whitespace(line@), listen_addr_prefix()) && line@.len()
                != 0 && t@ == trim_whitespace(line@),
        },
{
    let trimmed = trim(line);
    proof {
        reveal_strlit("LISTEN_ADDR=");
    }
    match strip_prefix(trimmed, "LISTEN_ADDR=") {
        Some(addr) => StdoutLine::ListenAddr(addr),
        None => {
            if line.unicode_len() == 0 {
                StdoutLine::Closed
            } else {
                StdoutLine::Log(String::from_str(trimmed))
            }
        },
    }
}

/// A subject command given by setting, unless it is blank; `None` falls back
/// to the Rust subject.
pub fn subject_cmd_override(setting: Option<String>) -> (r: Option<String>)
    ensures
        match setting {
            Some(s) => if trim_whitespace(s@).len() != 0 {
                r matches Some(c) && c@ == s@
            } else {
                r is None
            },
            None => r is None,
        },
{
    match setting {
        Some(s) => {
            if trim(s.as_str()).unicode_len() != 0 {
                Some(s)
            } else {
                None
            }
        },
        None => None,
    }
}

/// The settings each side of an in-process Rust pair announces: the given
/// parity, 64 concurrent requests and a channel credit of 16.
pub fn inproc_settings(parity: Parity) -> (s: ConnectionSettings)
    ensures
        s == (ConnectionSettings { parity, max_concurrent_requests: 64, initial_channel_credit: 16 }),
{
    ConnectionSettings { parity, max_concurrent_requests: 64, initial_channel_credit: 16 }
}

/// The WebSocket URL a subject dials for a harness listening on `port`.
pub open spec fn ws_url_text(port: u16) -> Seq<char> {
    "ws://127.0.0.1:"@ + decimal(port as nat) + "/"@
}

/// The WebSocket URL a subject dials for a harness listening on `port`.
pub fn ws_url(port: u16) -> (r: String)
    ensures
        r@ == ws_url_text(port),
{
    let mut r = String::from_str("ws://127.0.0.1:");
    push_decimal(&mut r, port as u64);
    r.append("/");
    r
}

/// The extra environment of a subject as logged: `<none>`, or each
/// `key=value` separated by spaces.
pub open spec fn extra_env_text(env: Seq<(Seq<char>, Seq<char>)>) -> Seq<char> {
    if env.len() == 0 {
        "<none>"@
    } else {
        join(env.map_values(|kv: (Seq<char>, Seq<char>)| kv.0 + "="@ + kv.1), " "@)
    }
}

/// The extra environment of a subject as logged (see [`extra_env_text`]).
pub fn extra_env_description(env: &[(&str, &str)]) -> (r: String)
    ensures
        r@ == extra_env_text(env@.map_values(|kv: (&str, &str)| (kv.0@, kv.1@))),
{
    let ghost pairs = env@.map_values(|kv: (&str, &str)| (kv.0@, kv.1@));
    if env.len() == 0 {
        return String::from_str("<none>");
    }
    let mut items: Vec<String> = Vec::new();
    let mut i: usize = 0;
    while i < env.len()
        invariant
            i <= env.len(),
            pairs == env@.map_values(|kv: (&str, &str)| (kv.0@, kv.1@)),
            items@.map_values(|t: String| t@) == pairs.take(i as int).map_values(
                |kv: (Seq<char>, Seq<char>)| kv.0 + "="@ + kv.1,
            ),
        decreases env.len() - i,
    {
        let (k, v) = env[i];
        let mut t = String::from_str(k);
        t.append("=");
        t.append(v);
        let ghost before = items@.map_values(|t: String| t@);
        items.push(t);
        proof {
            assert(pairs[i as int] == (k@, v@));
            assert(items@.map_values(|t: String| t@) =~= before.push(k@ + "="@ + v@));
            assert(pairs.take(i + 1) =~= pairs.take(i as int).push(pairs[i as int]));
            assert(pairs.take(i + 1).map_values(|kv: (Seq<char>, Seq<char>)| kv.0 + "="@ + kv.1) =~= pairs.take(
                i as int,
            ).map_values(|kv: (Seq<char>, Seq<char>)| kv.0 + "="@ + kv.1).push(k@ + "="@ + v@));
        }
        i += 1;
    }
    assert(pairs.take(i as int) =~= pairs);
    join_strings(&items, " ")
}

/// Cross-language scenarios run only with both subjects over TCP; others
/// are skipped.
pub fn cross_language_supported(server: SubjectSpec, client: SubjectSpec) -> (b: bool)
    ensures
        b == (server.transport == SubjectTestTransport::Tcp && client.transport == SubjectTestTransport::Tcp),
{
    server.transport == SubjectTestTransport::Tcp && client.transport == SubjectTestTransport::Tcp
}

/// The message for a subject client scenario that ran out of time.
pub open spec fn scenario_timeout_text(scenario: Seq<char>, ws: bool) -> Seq<char> {
    (if ws {
        "subject client scenario (ws) `"@
    } else {
        "subject client scenario `"@
    }) + scenario + "` timed out"@
}

/// The message for a subject client scenario that ran out of time.
pub fn scenario_timeout_message(scenario: &str, ws: bool) -> (r: String)
    ensures
        r@ == scenario_timeout_text(scenario@, ws),
{
    let mut r = if ws {
        String::from_str("subject client scenario (ws) `")
    } else {
        String::from_str("subject client scenario `")
    };
    r.append(scenario);
    r.append("` timed out");
    r
}

/// How long a TCP subject has to dial in, in nanoseconds (five seconds).
pub const SUBJECT_CONNECT_DEADLINE_NANOS: u64 = 5_000_000_000;

/// How often the harness checks on a subject it is waiting for, in
/// nanoseconds (half a second).
pub const SUBJECT_WAIT_HEARTBEAT_NANOS: u64 = 500_000_000;

/// What happened while the harness waited for a TCP subject to dial in and
/// shake hands. Texts are as the caller rendered them: exit statuses and
/// errors by `Display`, the elapsed time by `Debug`.
pub enum SubjectWaitEvent {
    /// The subject's connection was accepted.
    Accepted,
    /// Accepting failed.
    AcceptFailed { error: String },
    /// The subject process exited.
    Exited { status: String },
    /// Waiting on the subject process failed.
    WaitFailed { error: String },
    /// The deadline passed; `exited` is what polling the process gave.
    DeadlinePassed { exited: Result<Option<String>, String>, elapsed: String },
    /// A heartbeat came; `exited` is what polling the process gave.
    Heartbeat { exited: Result<Option<String>, String>, elapsed: String },
    /// The handshake over the accepted connection failed.
    HandshakeFailed { error: String },
}

/// What the harness does next while waiting for a TCP subject.
pub enum SubjectWaitAction {
    /// Go on with the accepted connection.
    Connected,
    /// Log this line and keep waiting.
    KeepWaiting { log: String },
    /// Give up with `message`, first terminating the subject for the reason
    /// given, if one is.
    Fail { terminate: Option<String>, message: String },
}

/// A [`SubjectWaitAction`] with its texts as sequences.
pub enum SubjectWaitActionView {
    Connected,
    KeepWaiting(Seq<char>),
    Fail(Option<Seq<char>>, Seq<char>),
}

impl View for SubjectWaitAction {
    type V = SubjectWaitActionView;

    open spec fn view(&self) -> SubjectWaitActionView {
        match self {
            SubjectWaitAction::Connected => SubjectWaitActionView::Connected,
            SubjectWaitAction::KeepWaiting { log } => SubjectWaitActionView::KeepWaiting(log@),
            SubjectWaitAction::Fail { terminate, message } => SubjectWaitActionView::Fail(
                match terminate {
                    Some(t) => Some(t@),
                    None => None,
                },
                message@,
            ),
        }
    }
}

/// What polling the subject gave, when it says the wait is over: the
/// message for a failed poll, or for a subject that exited (`exited_prefix`
/// before its status); `None` while it still runs.
pub open spec fn poll_failure(exited: Result<Option<String>, String>, exited_prefix: Seq<char>) -> Option<
    Seq<char>,
> {
    match exited {
        Err(e) => Some("try_wait on subject process: "@ + e@),
        Ok(Some(status)) => Some(exited_prefix + status@),
        Ok(None) => None,
    }
}

/// What the harness does after `event`, waiting for subject `pid` to dial
/// `addr`: a subject that exits or a poll that fails ends the wait without
/// terminating anything; a failed accept, a passed deadline or a failed
/// handshake terminates the subject first; a heartbeat while the subject
/// runs logs a line and the wait goes on.
pub open spec fn subject_wait_action(pid: u32, addr: Seq<char>, event: SubjectWaitEvent) -> SubjectWaitActionView {
    match event {
        SubjectWaitEvent::Accepted => SubjectWaitActionView::Connected,
        SubjectWaitEvent::AcceptFailed { error } => SubjectWaitActionView::Fail(
            Some("TCP accept failed"@),
            "accept: "@ + error@,
        ),
        SubjectWaitEvent::Exited { status } => SubjectWaitActionView::Fail(
            None,
            "subject exited before connecting: "@ + status@,
        ),
        SubjectWaitEvent::WaitFailed { error } => SubjectWaitActionView::Fail(
            None,
            "wait on subject process: "@ + error@,
        ),
        SubjectWaitEvent::DeadlinePassed { exited, elapsed } => match poll_failure(
            exited,
            "subject exited before connecting: "@,
        ) {
            Some(m) => SubjectWaitActionView::Fail(None, m),
            None => SubjectWaitActionView::Fail(
                Some("subject did not connect within 5s"@),
                "subject did not connect within 5s (pid="@ + decimal(pid as nat) + ", addr="@ + addr
                    + ", elapsed="@ + elapsed@ + ")"@,
            ),
        },
        SubjectWaitEvent::Heartbeat { exited, elapsed } => match poll_failure(
            exited,
            "subject exited while waiting for tcp connect: "@,
        ) {
            Some(m) => SubjectWaitActionView::Fail(None, m),
            None => SubjectWaitActionView::KeepWaiting(
                "[subject:"@ + decimal(pid as nat) + "] waiting for tcp connect to "@ + addr
                    + " (elapsed="@ + elapsed@ + ")"@,
            ),
        },
        SubjectWaitEvent::HandshakeFailed { error } => SubjectWaitActionView::Fail(
            Some("TCP handshake failed"@),
            "handshake: "@ + error@,
        ),
    }
}

fn poll_failure_message(exited: &Result<Option<String>, String>, exited_prefix: &str) -> (r: Option<String>)
    ensures
        match poll_failure(*exited, exited_prefix@) {
            Some(m) => r matches Some(t) && t@ == m,
            None => r is None,
        },
{
    match exited {
        Err(e) => Some(String::from_str("try_wait on subject process: ").concat(e.as_str())),
        Ok(Some(status)) => Some(String::from_str(exited_prefix).concat(status.as_str())),
        Ok(None) => None,
    }
}

/// Decides what the harness does after `event` while waiting for subject
/// `pid` to dial `addr` (see [`subject_wait_action`]).
pub fn subject_wait_step(pid: u32, addr: &str, event: SubjectWaitEvent) -> (a: SubjectWaitAction)
    ensures
        a@ == subject_wait_action(pid, addr@, event),
{
    match event {
        SubjectWaitEvent::Accepted => SubjectWaitAction::Connected,
        SubjectWaitEvent::AcceptFailed { error } => SubjectWaitAction::Fail {
            terminate: Some(String::from_str("TCP accept failed")),
            message: String::from_str("accept: ").concat(error.as_str()),
        },
        SubjectWaitEvent::Exited { status } => SubjectWaitAction::Fail {
            terminate: None,
            message: String::from_str("subject exited before connecting: ").concat(status.as_str()),
        },
        SubjectWaitEvent::WaitFailed { error } => SubjectWaitAction::Fail {
            terminate: None,
            message: String::from_str("wait on subject process: ").concat(error.as_str()),
        },
        SubjectWaitEvent::DeadlinePassed { exited, elapsed } => {
            match poll_failure_message(&exited, "subject exited before connecting: ") {
                Some(m) => SubjectWaitAction::Fail { terminate: None, message: m },
                None => {
                    let mut m = String::from_str("subject did not connect within 5s (pid=");
                    push_decimal(&mut m, pid as u64);
                    m.append(", addr=");
                    m.append(addr);
                    m.append(", elapsed=");
                    m.append(elapsed.as_str());
                    m.append(")");
                    SubjectWaitAction::Fail {
                        terminate: Some(String::from_str("subject did not connect within 5s")),
                        message: m,
                    }
                },
            }
        },
        SubjectWaitEvent::Heartbeat { exited, elapsed } => {
            match poll_failure_message(&exited, "subject exited while waiting for tcp connect: ") {
                Some(m) => SubjectWaitAction::Fail { terminate: None, message: m },
                None => {
                    let mut line = String::from_str("[subject:");
                    push_decimal(&mut line, pid as u64);
                    line.append("] waiting for tcp connect to ");
                    line.append(addr);
                    line.append(" (elapsed=");
                    line.append(elapsed.as_str());
                    line.append(")");
                    SubjectWaitAction::KeepWaiting { log: line }
                },
            }
        },
        SubjectWaitEvent::HandshakeFailed { error } => SubjectWaitAction::Fail {
            terminate: Some(String::from_str("TCP handshake failed")),
            message: String::from_str("handshake: ").concat(error.as_str()),
        },
    }
}

/// The transport setting selects WebSocket exactly when it is the two
/// letters `w` and `s`, each in either case; any other setting, and none,
/// selects TCP.
pub proof fn law_transport_setting_selects_ws(setting: Option<Seq<char>>)
    ensures
        transport_for(setting) == SubjectTestTransport::Ws <==> (setting matches Some(s) && s.len() == 2 && (s[0]
            == 'w' || s[0] == 'W') && (s[1] == 's' || s[1] == 'S')),
        transport_for(setting) != SubjectTestTransport::Ws ==> transport_for(setting) == SubjectTestTransport::Tcp,
{
    reveal_strlit("ws");
    if let Some(s) = setting {
        let l = ascii_lowercase(s);
        if s.len() == 2 && (s[0] == 'w' || s[0] == 'W') && (s[1] == 's' || s[1] == 'S') {
            assert('W' as u32 + 32 == 'w' as u32);
            assert('S' as u32 + 32 == 's' as u32);
            assert(l =~= "ws"@);
        } else if l == "ws"@ {
            assert(l.len() == s.len());
            assert(s.len() == 2);
            assert(l[0] == ascii_lower(s[0]) && l[1] == ascii_lower(s[1]));
            assert(l[0] == 'w' && l[1] == 's');
            assert(s[0] == 'w' || s[0] == 'W') by {
                if 'A' <= s[0] <= 'Z' {
                    assert(((s[0] as u32) + 32) as char == 'w');
                    assert((((s[0] as u32) + 32) as char) as u32 == (s[0] as u32) + 32);
                }
            }
            assert(s[1] == 's' || s[1] == 'S') by {
                if 'A' <= s[1] <= 'Z' {
                    assert(((s[1] as u32) + 32) as char == 's');
                    assert((((s[1] as u32) + 32) as char) as u32 == (s[1] as u32) + 32);
                }
            }
            assert(false);
        }
    }
}

} // verus!
