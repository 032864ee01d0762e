//! Decisions of the host protocol (NDJSON over stdin/stdout): error codes,
//! how failures are classified, what a run's final message says, how requests
//! are checked and routed, and the host's settings.

use vstd::prelude::*;
use crate::runtime::{RunSnapshot, RunStatus};
use crate::text::{
    chars_of, contains_seq, is_blank, owned, str_contains, str_eq, str_is_blank, to_lowercase,
    lowercase_of,
};

verus! {

/// The error codes of the host protocol.
#[derive(Debug, Clone, Copy, PartialEq, Eq, Structural)]
pub enum HostErrorCode {
    Timeout,
    ProviderAuth,
    ProviderRateLimit,
    ProviderDown,
    InvalidRequest,
    Internal,
}

/// The wire name of a code.
pub open spec fn code_name(c: HostErrorCode) -> Seq<char> {
    match c {
        HostErrorCode::Timeout => "TIMEOUT"@,
        HostErrorCode::ProviderAuth => "PROVIDER_AUTH"@,
        HostErrorCode::ProviderRateLimit => "PROVIDER_RATE_LIMIT"@,
        HostErrorCode::ProviderDown => "PROVIDER_DOWN"@,
        HostErrorCode::InvalidRequest => "INVALID_REQUEST"@,
        HostErrorCode::Internal => "INTERNAL"@,
    }
}

/// Whether a failure with this code is worth retrying by default.
pub open spec fn retryable_spec(c: HostErrorCode) -> bool {
    match c {
        HostErrorCode::ProviderAuth | HostErrorCode::InvalidRequest => false,
        _ => true,
    }
}

/// The text a final message carries for a failure with this code.
pub open spec fn fallback_spec(c: HostErrorCode) -> Option<Seq<char>> {
    match c {
        HostErrorCode::ProviderAuth => Some(
            "Provider authentication failed. Please verify credentials and retry later."@,
        ),
        HostErrorCode::ProviderRateLimit => Some("Provider is rate limited. Please retry shortly."@),
        HostErrorCode::ProviderDown => Some(
            "Provider is temporarily unavailable. Please retry shortly."@,
        ),
        HostErrorCode::Timeout => Some(
            "Request timed out. Please retry with a simpler prompt or a higher timeout."@,
        ),
        HostErrorCode::InvalidRequest | HostErrorCode::Internal => None,
    }
}

impl HostErrorCode {
    /// The wire name of this code.
    pub fn as_str(self) -> (s: &'static str)
        ensures
            s@ == code_name(self),
    {
        match self {
            HostErrorCode::Timeout => "TIMEOUT",
            HostErrorCode::ProviderAuth => "PROVIDER_AUTH",
            HostErrorCode::ProviderRateLimit => "PROVIDER_RATE_LIMIT",
            HostErrorCode::ProviderDown => "PROVIDER_DOWN",
            HostErrorCode::InvalidRequest => "INVALID_REQUEST",
            HostErrorCode::Internal => "INTERNAL",
        }
    }

    /// Whether a failure with this code is worth retrying by default:
    /// authentication and invalid requests are not.
    pub fn default_retryable(self) -> (b: bool)
        ensures
            b == retryable_spec(self),
    {
        match self {
            HostErrorCode::ProviderAuth => false,
            HostErrorCode::InvalidRequest => false,
            HostErrorCode::Timeout | HostErrorCode::ProviderRateLimit
            | HostErrorCode::ProviderDown | HostErrorCode::Internal => true,
        }
    }
}

/// The text a final message carries for a failure with `code`, if any.
pub fn template_fallback_text(code: HostErrorCode) -> (t: Option<&'static str>)
    ensures
        match t {
            Some(s) => fallback_spec(code) == Some(s@),
            None => fallback_spec(code) is None,
        },
{
    match code {
        HostErrorCode::ProviderAuth => Some(
            "Provider authentication failed. Please verify credentials and retry later.",
        ),
        HostErrorCode::ProviderRateLimit => Some("Provider is rate limited. Please retry shortly."),
        HostErrorCode::ProviderDown => Some(
            "Provider is temporarily unavailable. Please retry shortly.",
        ),
        HostErrorCode::Timeout => Some(
            "Request timed out. Please retry with a simpler prompt or a higher timeout.",
        ),
        HostErrorCode::InvalidRequest | HostErrorCode::Internal => None,
    }
}

/// How a lower-cased failure message is classified: by the first group of
/// key phrases it contains (authentication, rate limiting, unavailability),
/// otherwise as internal.
pub open spec fn classify_lowercase_spec(m: Seq<char>) -> HostErrorCode {
    if contains_seq(m, "unauthorized"@) || contains_seq(m, "invalid api key"@) || contains_seq(
        m,
        "auth"@,
    ) {
        HostErrorCode::ProviderAuth
    } else if contains_seq(m, "rate limit"@) || contains_seq(m, "too many requests"@)
        || contains_seq(m, "429"@) {
        HostErrorCode::ProviderRateLimit
    } else if contains_seq(m, "service unavailable"@) || contains_seq(m, "connection refused"@)
        || contains_seq(m, "provider down"@) || contains_seq(m, "dns"@) || contains_seq(
        m,
        "network"@,
    ) {
        HostErrorCode::ProviderDown
    } else {
        HostErrorCode::Internal
    }
}

/// Law: how a lower-cased failure message is classified, phrase by phrase.
/// A message naming authentication ("unauthorized", "invalid api key",
/// "auth") is an authentication failure; otherwise one naming rate limiting
/// ("rate limit", "too many requests", "429") is rate limiting; otherwise
/// one naming unavailability ("service unavailable", "connection refused",
/// "provider down", "dns", "network") means the provider is down; any other
/// message is an internal failure.
pub proof fn law_failure_classification(m: Seq<char>)
    ensures
        ({
            let auth = contains_seq(m, "unauthorized"@) || contains_seq(m, "invalid api key"@)
                || contains_seq(m, "auth"@);
            let rate = contains_seq(m, "rate limit"@) || contains_seq(m, "too many requests"@)
                || contains_seq(m, "429"@);
            let down = contains_seq(m, "service unavailable"@) || contains_seq(
                m,
                "connection refused"@,
            ) || contains_seq(m, "provider down"@) || contains_seq(m, "dns"@) || contains_seq(
                m,
                "network"@,
            );
            &&& contains_seq(m, "unauthorized"@) ==> classify_lowercase_spec(m) == HostErrorCode::ProviderAuth
            &&& contains_seq(m, "invalid api key"@) ==> classify_lowercase_spec(m) == HostErrorCode::ProviderAuth
            &&& contains_seq(m, "auth"@) ==> classify_lowercase_spec(m) == HostErrorCode::ProviderAuth
            &&& !auth && contains_seq(m, "rate limit"@) ==> classify_lowercase_spec(m) == HostErrorCode::ProviderRateLimit
            &&& !auth && contains_seq(m, "too many requests"@) ==> classify_lowercase_spec(m) == HostErrorCode::ProviderRateLimit
            &&& !auth && contains_seq(m, "429"@) ==> classify_lowercase_spec(m) == HostErrorCode::ProviderRateLimit
            &&& !auth && !rate && contains_seq(m, "service unavailable"@) ==> classify_lowercase_spec(m) == HostErrorCode::ProviderDown
            &&& !auth && !rate && contains_seq(m, "connection refused"@) ==> classify_lowercase_spec(m) == HostErrorCode::ProviderDown
            &&& !auth && !rate && contains_seq(m, "provider down"@) ==> classify_lowercase_spec(m) == HostErrorCode::ProviderDown
            &&& !auth && !rate && contains_seq(m, "dns"@) ==> classify_lowercase_spec(m) == HostErrorCode::ProviderDown
            &&& !auth && !rate && contains_seq(m, "network"@) ==> classify_lowercase_spec(m) == HostErrorCode::ProviderDown
            &&& !auth && !rate && !down ==> classify_lowercase_spec(m) == HostErrorCode::Internal
        }),
{
}

/// Classifies an already lower-cased failure message.
pub fn classify_lowercase_message(m: &str) -> (c: HostErrorCode)
    ensures
        c == classify_lowercase_spec(m@),
{
    if str_contains(m, "unauthorized") || str_contains(m, "invalid api key") || str_contains(
        m,
        "auth",
    ) {
        HostErrorCode::ProviderAuth
    } else if str_contains(m, "rate limit") || str_contains(m, "too many requests")
        || str_contains(m, "429") {
        HostErrorCode::ProviderRateLimit
    } else if str_contains(m, "service unavailable") || str_contains(m, "connection refused")
        || str_contains(m, "provider down") || str_contains(m, "dns") || str_contains(
        m,
        "network",
    ) {
        HostErrorCode::ProviderDown
    } else {
        HostErrorCode::Internal
    }
}

/// Classifies a failure message, case-insensitively.
pub fn map_error_to_contract(message: &str) -> (c: HostErrorCode)
    ensures
        c == classify_lowercase_spec(lowercase_of(message@)),
{
    let m = to_lowercase(message);
    classify_lowercase_message(m.as_str())
}

/// How a failed run is classified from the engine's code and the message
/// (lower-cased): an explicit code decides, except a provider error, a
/// cancellation-free unknown code or no code, for which the message does.
pub open spec fn snapshot_code_spec(code: Option<Seq<char>>, lowered: Seq<char>) -> HostErrorCode {
    match code {
        Some(c) => if c == "PROVIDER_DOWN"@ {
            HostErrorCode::ProviderDown
        } else if c == "INVALID_REQUEST"@ {
            HostErrorCode::InvalidRequest
        } else if c == "INTERNAL"@ || c == "CANCELED"@ {
            HostErrorCode::Internal
        } else {
            classify_lowercase_spec(lowered)
        },
        None => classify_lowercase_spec(lowered),
    }
}

/// The view of an optional text.
pub open spec fn opt_str_view(o: Option<&str>) -> Option<Seq<char>> {
    match o {
        Some(s) => Some(s@),
        None => None,
    }
}

/// The view of an optional string.
pub open spec fn opt_string_view(o: Option<String>) -> Option<Seq<char>> {
    match o {
        Some(s) => Some(s@),
        None => None,
    }
}

/// Classifies a failed run from the engine's code and the already
/// lower-cased message.
pub fn classify_snapshot_error(error_code: Option<&str>, lowered: &str) -> (c: HostErrorCode)
    ensures
        c == snapshot_code_spec(opt_str_view(error_code), lowered@),
{
    match error_code {
        Some(code) => {
            if str_eq(code, "PROVIDER_DOWN") {
                HostErrorCode::ProviderDown
            } else if str_eq(code, "INVALID_REQUEST") {
                HostErrorCode::InvalidRequest
            } else if str_eq(code, "INTERNAL") || str_eq(code, "CANCELED") {
                HostErrorCode::Internal
            } else {
                classify_lowercase_message(lowered)
            }
        },
        None => classify_lowercase_message(lowered),
    }
}

/// Classifies a failed run from the engine's code and its message.
pub fn map_snapshot_error_to_contract(error_code: Option<&str>, message: &str) -> (c:
    HostErrorCode)
    ensures
        c == snapshot_code_spec(opt_str_view(error_code), lowercase_of(message@)),
{
    let m = to_lowercase(message);
    classify_snapshot_error(error_code, m.as_str())
}

/// The error part of a protocol message.
#[derive(Debug, Clone)]
pub struct ErrorPayload {
    pub code: String,
    pub message: String,
    pub retryable: bool,
    /// The HTTP status a bridge should answer with, when it is not the
    /// default.
    pub http_status: Option<u16>,
}

/// The error payload for `code`: retryable as given, or by the code's
/// default.
pub fn build_error_payload(code: HostErrorCode, message: &str, retryable: Option<bool>) -> (p:
    ErrorPayload)
    ensures
        p.code@ == code_name(code),
        p.message@ == message@,
        p.retryable == match retryable {
            Some(b) => b,
            None => retryable_spec(code),
        },
        p.http_status is None,
{
    let r = match retryable {
        Some(b) => b,
        None => code.default_retryable(),
    };
    ErrorPayload { code: owned(code.as_str()), message: owned(message), retryable: r, http_status: None }
}

/// The error payload of a request refused because the host is at capacity.
pub fn busy_error() -> (p: ErrorPayload)
    ensures
        p.code@ == "BUSY"@,
        p.message@ == "server is overloaded; retry later"@,
        p.retryable,
        p.http_status == Some(429u16),
{
    ErrorPayload {
        code: owned("BUSY"),
        message: owned("server is overloaded; retry later"),
        retryable: true,
        http_status: Some(429),
    }
}

/// The content of a run's final message: its status, its text and, for a
/// failure, the error.
#[derive(Debug, Clone)]
pub struct FinalOutcome {
    pub status: String,
    pub text: String,
    pub error: Option<ErrorPayload>,
}

/// The final message of a failure with `code` and `message`: status
/// "ERROR", the code's fallback text, and the error with the code's default
/// retryability.
pub open spec fn failure_outcome_spec(o: FinalOutcome, code: HostErrorCode, message: Seq<char>) -> bool {
    &&& o.status@ == "ERROR"@
    &&& o.text@ == match fallback_spec(code) {
        Some(t) => t,
        None => Seq::empty(),
    }
    &&& o.error matches Some(e) && e.code@ == code_name(code) && e.message@ == message
        && e.retryable == retryable_spec(code) && e.http_status is None
}

fn failure_outcome(code: HostErrorCode, message: &str) -> (o: FinalOutcome)
    ensures
        failure_outcome_spec(o, code, message@),
{
    let text = match template_fallback_text(code) {
        Some(t) => owned(t),
        None => String::new(),
    };
    FinalOutcome {
        status: owned("ERROR"),
        text,
        error: Some(build_error_payload(code, message, None)),
    }
}

/// The status a run's final message carries: "OK" for a completed run,
/// "CANCELED" for a cancelled one, "ERROR" otherwise.
pub open spec fn final_status_spec(s: RunStatus) -> Seq<char> {
    match s {
        RunStatus::Completed => "OK"@,
        RunStatus::Cancelled => "CANCELED"@,
        _ => "ERROR"@,
    }
}

/// A copy of an error payload.
pub fn copy_error_payload(p: &ErrorPayload) -> (r: ErrorPayload)
    ensures
        r == *p,
{
    ErrorPayload {
        code: p.code.clone(),
        message: p.message.clone(),
        retryable: p.retryable,
        http_status: p.http_status,
    }
}

/// A copy of a final outcome.
pub fn copy_outcome(o: &FinalOutcome) -> (r: FinalOutcome)
    ensures
        r == *o,
{
    FinalOutcome {
        status: o.status.clone(),
        text: o.text.clone(),
        error: match &o.error {
            Some(e) => Some(copy_error_payload(e)),
            None => None,
        },
    }
}

/// A run's final message as the host sends it and remembers it for
/// replays: the request it answers, when it was sent, the outcome, how long
/// the run took, and whether it is a replay of a remembered message.
#[derive(Debug)]
pub struct FinalMessage {
    pub request_id: String,
    pub session_id: String,
    pub ts_ms: i64,
    pub outcome: FinalOutcome,
    pub latency_ms: u64,
    pub replayed: bool,
}

/// The final message answering `request_id` of `session_id` with
/// `outcome`, sent at `ts_ms` after `latency_ms`.
pub fn final_message(
    request_id: &str,
    session_id: &str,
    outcome: FinalOutcome,
    ts_ms: i64,
    latency_ms: u64,
) -> (m: FinalMessage)
    ensures
        m.request_id@ == request_id@,
        m.session_id@ == session_id@,
        m.outcome == outcome,
        m.ts_ms == ts_ms,
        m.latency_ms == latency_ms,
        !m.replayed,
{
    FinalMessage {
        request_id: owned(request_id),
        session_id: owned(session_id),
        ts_ms,
        outcome,
        latency_ms,
        replayed: false,
    }
}

/// A copy of a final message.
pub fn copy_final_message(m: &FinalMessage) -> (r: FinalMessage)
    ensures
        r == *m,
{
    FinalMessage {
        request_id: m.request_id.clone(),
        session_id: m.session_id.clone(),
        ts_ms: m.ts_ms,
        outcome: copy_outcome(&m.outcome),
        latency_ms: m.latency_ms,
        replayed: m.replayed,
    }
}

/// `m` replays the remembered final message `stored` to the request
/// `request_id` of `session_id` at `ts_ms`: it carries the new request's
/// ids and time and is marked as a replay; the outcome and the latency are
/// the remembered ones.
pub open spec fn is_replay_of(
    m: FinalMessage,
    stored: FinalMessage,
    request_id: Seq<char>,
    session_id: Seq<char>,
    ts_ms: i64,
) -> bool {
    &&& m.request_id@ == request_id
    &&& m.session_id@ == session_id
    &&& m.ts_ms == ts_ms
    &&& m.replayed
    &&& m.outcome == stored.outcome
    &&& m.latency_ms == stored.latency_ms
}

/// The answer to a run request whose idempotency key has a remembered
/// final message `stored`: that message, readdressed to `request_id` of
/// `session_id`, stamped `ts_ms` and marked as a replay.
pub fn replayed_final(stored: &FinalMessage, request_id: &str, session_id: &str, ts_ms: i64) -> (m:
    FinalMessage)
    ensures
        is_replay_of(m, *stored, request_id@, session_id@, ts_ms),
{
    FinalMessage {
        request_id: owned(request_id),
        session_id: owned(session_id),
        ts_ms,
        outcome: copy_outcome(&stored.outcome),
        latency_ms: stored.latency_ms,
        replayed: true,
    }
}

/// The final message of a run, from its terminal snapshot.
pub fn final_from_snapshot(snapshot: &RunSnapshot) -> (o: FinalOutcome)
    ensures
        o.status@ == final_status_spec(snapshot.status),
        snapshot.status == RunStatus::Completed ==> {
            &&& o.status@ == "OK"@
            &&& o.text@ == match snapshot.output {
                Some(s) => s@,
                None => Seq::empty(),
            }
            &&& o.error is None
        },
        snapshot.status == RunStatus::Cancelled ==> {
            &&& o.status@ == "CANCELED"@
            &&& o.text@ == Seq::<char>::empty()
            &&& o.error is None
        },
        snapshot.status == RunStatus::Failed ==> {
            let message = match snapshot.error_message {
                Some(m) => m@,
                None => "run failed"@,
            };
            failure_outcome_spec(
                o,
                snapshot_code_spec(opt_string_view(snapshot.error_code), lowercase_of(message)),
                message,
            )
        },
        !crate::runtime::is_terminal_spec(snapshot.status) ==> {
            &&& o.status@ == "ERROR"@
            &&& o.text@ == Seq::<char>::empty()
            &&& o.error matches Some(e) && e.code@ == "INTERNAL"@ && e.message@
                == "run finished with unexpected status"@ && e.retryable && e.http_status is None
        },
{
    match snapshot.status {
        RunStatus::Completed => {
            let text = match &snapshot.output {
                Some(s) => s.clone(),
                None => String::new(),
            };
            FinalOutcome { status: owned("OK"), text, error: None }
        },
        RunStatus::Cancelled => FinalOutcome {
            status: owned("CANCELED"),
            text: String::new(),
            error: None,
        },
        RunStatus::Failed => {
            let message = match &snapshot.error_message {
                Some(m) => m.clone(),
                None => owned("run failed"),
            };
            let code = match &snapshot.error_code {
                Some(c) => map_snapshot_error_to_contract(Some(c.as_str()), message.as_str()),
                None => map_snapshot_error_to_contract(None, message.as_str()),
            };
            failure_outcome(code, message.as_str())
        },
        _ => FinalOutcome {
            status: owned("ERROR"),
            text: String::new(),
            error: Some(
                build_error_payload(
                    HostErrorCode::Internal,
                    "run finished with unexpected status",
                    Some(true),
                ),
            ),
        },
    }
}

/// The final message of a run that did not end within its timeout.
pub fn timeout_outcome() -> (o: FinalOutcome)
    ensures
        o.status@ == "TIMEOUT"@,
        fallback_spec(HostErrorCode::Timeout) == Some(o.text@),
        o.error matches Some(e) && e.code@ == "TIMEOUT"@ && e.message@
            == "request exceeded timeout_ms"@ && e.retryable && e.http_status is None,
{
    let text = match template_fallback_text(HostErrorCode::Timeout) {
        Some(t) => owned(t),
        None => String::new(),
    };
    FinalOutcome {
        status: owned("TIMEOUT"),
        text,
        error: Some(
            build_error_payload(HostErrorCode::Timeout, "request exceeded timeout_ms", Some(true)),
        ),
    }
}

/// The final message of a run the engine refused to start, with its error
/// message.
pub fn submit_failure_outcome(message: &str) -> (o: FinalOutcome)
    ensures
        failure_outcome_spec(o, classify_lowercase_spec(lowercase_of(message@)), message@),
{
    let code = map_error_to_contract(message);
    failure_outcome(code, message)
}

/// The flat response shape of bridge-compatible hosts.
#[derive(Debug, Clone)]
pub struct BridgeResponse {
    pub ok: bool,
    pub text: String,
    pub error_code: Option<String>,
    pub error_message: Option<String>,
}

/// Converts a final message (its status, text and error fields) to the flat
/// bridge shape: a success carries the text and no error; anything else no
/// text and an error code and message, "INTERNAL" and "request failed" when
/// the message has none.
pub fn bridge_response(
    status: &str,
    text: &str,
    error_code: Option<&str>,
    error_message: Option<&str>,
) -> (b: BridgeResponse)
    ensures
        b.ok == (status@ == "OK"@),
        b.ok ==> b.text@ == text@ && b.error_code is None && b.error_message is None,
        !b.ok ==> {
            &&& b.text@ == Seq::<char>::empty()
            &&& b.error_code matches Some(c) && c@ == match error_code {
                Some(e) => e@,
                None => "INTERNAL"@,
            }
            &&& b.error_message matches Some(m) && m@ == match error_message {
                Some(e) => e@,
                None => "request failed"@,
            }
        },
{
    if str_eq(status, "OK") {
        return BridgeResponse { ok: true, text: owned(text), error_code: None, error_message: None };
    }
    let code = match error_code {
        Some(c) => owned(c),
        None => owned("INTERNAL"),
    };
    let message = match error_message {
        Some(m) => owned(m),
        None => owned("request failed"),
    };
    BridgeResponse { ok: false, text: String::new(), error_code: Some(code), error_message: Some(message) }
}

// ---------------------------------------------------------------------------
// Requests
// ---------------------------------------------------------------------------

/// A request of the host protocol.
#[derive(Debug, Clone)]
pub struct HostRequest {
    pub protocol_version: u8,
    pub request_type: String,
    pub request_id: String,
    pub session_id: Option<String>,
    pub ts_ms: Option<i64>,
    pub prompt: Option<String>,
    pub timeout_ms: Option<u64>,
    pub idempotency_key: Option<String>,
    pub target_request_id: Option<String>,
    pub cancel_request_id: Option<String>,
    pub stream: Option<bool>,
}

/// What the host does with a request.
#[derive(Debug, Clone, Copy, PartialEq, Eq, Structural)]
pub enum HostRoute {
    /// The protocol version is not 1: answer an invalid-request error and stop.
    UnsupportedVersion,
    /// Answer "PONG".
    Ping,
    /// Cancel a running request.
    Cancel,
    /// Answer "SESSION_CLOSED".
    SessionClose,
    /// Start a run.
    Run,
    /// Unknown request type: answer an invalid-request error.
    Unsupported,
}

/// The route of a request.
pub open spec fn route_spec(version: u8, request_type: Seq<char>) -> HostRoute {
    if version != 1 {
        HostRoute::UnsupportedVersion
    } else if request_type == "ping"@ {
        HostRoute::Ping
    } else if request_type == "cancel"@ {
        HostRoute::Cancel
    } else if request_type == "session_close"@ {
        HostRoute::SessionClose
    } else if request_type == "run"@ {
        HostRoute::Run
    } else {
        HostRoute::Unsupported
    }
}

impl HostRequest {
    /// Where the request goes.
    pub fn route(&self) -> (r: HostRoute)
        ensures
            r == route_spec(self.protocol_version, self.request_type@),
    {
        if self.protocol_version != 1 {
            return HostRoute::UnsupportedVersion;
        }
        let t = self.request_type.as_str();
        if str_eq(t, "ping") {
            HostRoute::Ping
        } else if str_eq(t, "cancel") {
            HostRoute::Cancel
        } else if str_eq(t, "session_close") {
            HostRoute::SessionClose
        } else if str_eq(t, "run") {
            HostRoute::Run
        } else {
            HostRoute::Unsupported
        }
    }

    /// The request a cancel targets: `target_request_id` when present,
    /// otherwise `cancel_request_id`; none when the chosen id is blank.
    pub fn cancel_target(&self) -> (t: Option<String>)
        ensures
            ({
                let chosen = match self.target_request_id {
                    Some(x) => Some(x),
                    None => self.cancel_request_id,
                };
                match chosen {
                    Some(x) => if is_blank(x@) {
                        t is None
                    } else {
                        t == Some(x)
                    },
                    None => t is None,
                }
            }),
    {
        let chosen = match &self.target_request_id {
            Some(x) => Some(x.clone()),
            None => self.cancel_request_id.clone(),
        };
        match chosen {
            Some(x) => if str_is_blank(x.as_str()) {
                None
            } else {
                Some(x)
            },
            None => None,
        }
    }

    /// Checks a run request: it needs a session id, a prompt and an
    /// idempotency key, none of them blank, checked in that order.
    pub fn check_run(&self) -> (r: Result<RunFields, InvalidRun>)
        ensures
            match r {
                Ok(f) => {
                    &&& self.session_id == Some(f.session_id) && !is_blank(f.session_id@)
                    &&& self.prompt == Some(f.prompt) && !is_blank(f.prompt@)
                    &&& self.idempotency_key == Some(f.idempotency_key) && !is_blank(
                        f.idempotency_key@,
                    )
                },
                Err(e) => {
                    let sid_ok = self.session_id matches Some(s) && !is_blank(s@);
                    let prompt_ok = self.prompt matches Some(p) && !is_blank(p@);
                    if !sid_ok {
                        e.session_id is None && e.message@
                            == "run request requires non-empty session_id"@
                    } else if !prompt_ok {
                        e.session_id == self.session_id && e.message@
                            == "run request requires non-empty prompt"@
                    } else {
                        &&& e.session_id == self.session_id
                        &&& e.message@ == "run request requires non-empty idempotency_key"@
                        &&& !(self.idempotency_key matches Some(k) && !is_blank(k@))
                    }
                },
            },
    {
        let session_id = match &self.session_id {
            Some(s) => if !str_is_blank(s.as_str()) {
                s.clone()
            } else {
                return Err(
                    InvalidRun {
                        session_id: None,
                        message: owned("run request requires non-empty session_id"),
                    },
                );
            },
            None => {
                return Err(
                    InvalidRun {
                        session_id: None,
                        message: owned("run request requires non-empty session_id"),
                    },
                );
            },
        };
        let prompt = match &self.prompt {
            Some(p) => if !str_is_blank(p.as_str()) {
                p.clone()
            } else {
                return Err(
                    InvalidRun {
                        session_id: Some(session_id),
                        message: owned("run request requires non-empty prompt"),
                    },
                );
            },
            None => {
                return Err(
                    InvalidRun {
                        session_id: Some(session_id),
                        message: owned("run request requires non-empty prompt"),
                    },
                );
            },
        };
        let key = match &self.idempotency_key {
            Some(k) => if !str_is_blank(k.as_str()) {
                k.clone()
            } else {
                return Err(
                    InvalidRun {
                        session_id: Some(session_id),
                        message: owned("run request requires non-empty idempotency_key"),
                    },
                );
            },
            None => {
                return Err(
                    InvalidRun {
                        session_id: Some(session_id),
                        message: owned("run request requires non-empty idempotency_key"),
                    },
                );
            },
        };
        Ok(RunFields { session_id, prompt, idempotency_key: key })
    }
}

/// The checked fields of a run request.
#[derive(Debug, Clone)]
pub struct RunFields {
    pub session_id: String,
    pub prompt: String,
    pub idempotency_key: String,
}

/// A run request that failed its check: the message, and the session id to
/// answer with when it was valid.
#[derive(Debug, Clone)]
pub struct InvalidRun {
    pub session_id: Option<String>,
    pub message: String,
}

/// The key under which a run's final message is remembered for replays.
pub fn replay_key(session_id: &str, idempotency_key: &str) -> (k: String)
    ensures
        k@ == session_id@ + ":"@ + idempotency_key@,
{
    let mut k = owned(session_id);
    k.append(":");
    k.append(idempotency_key);
    k
}

/// The error message of a request whose route ends in an invalid-request
/// error, if it does.
pub open spec fn route_error_spec(r: HostRoute) -> Option<Seq<char>> {
    match r {
        HostRoute::UnsupportedVersion => Some("unsupported protocol_version (expected 1)"@),
        HostRoute::Unsupported => Some("unsupported request type"@),
        _ => None,
    }
}

/// The error message of a request whose route ends in an invalid-request
/// error, if it does.
pub fn route_error(r: HostRoute) -> (m: Option<&'static str>)
    ensures
        match m {
            Some(s) => route_error_spec(r) == Some(s@),
            None => route_error_spec(r) is None,
        },
{
    match r {
        HostRoute::UnsupportedVersion => Some("unsupported protocol_version (expected 1)"),
        HostRoute::Unsupported => Some("unsupported request type"),
        _ => None,
    }
}

/// How the host loop treats a request once it is routed.
#[derive(Debug, Clone, Copy, PartialEq, Eq)]
pub struct RequestHandling {
    /// After answering the invalid request, end the host with a protocol
    /// error.
    pub fail: bool,
    /// Acknowledge an accepted run before its final.
    pub emit_ack: bool,
    /// Let a run's final go out even when the request is no longer tracked.
    pub allow_orphan_terminal: bool,
    /// Stop reading input after this request.
    pub stop_after: bool,
}

/// How the host loop treats a request with route `r`: an unsupported
/// protocol version always ends the host, an unsupported type only in
/// single-request mode; in single-request mode a run is not acknowledged,
/// its final may go out untracked, and the host stops after the request.
pub fn request_handling(r: HostRoute, single_request: bool) -> (h: RequestHandling)
    ensures
        h.fail == (r == HostRoute::UnsupportedVersion || (r == HostRoute::Unsupported && single_request)),
        h.emit_ack == !single_request,
        h.allow_orphan_terminal == single_request,
        h.stop_after == single_request,
{
    let fail = match r {
        HostRoute::UnsupportedVersion => true,
        HostRoute::Unsupported => single_request,
        _ => false,
    };
    RequestHandling {
        fail,
        emit_ack: !single_request,
        allow_orphan_terminal: single_request,
        stop_after: single_request,
    }
}

/// The error message of a cancel request without a target.
pub fn missing_cancel_target_message() -> (m: &'static str)
    ensures
        m@ == "cancel request requires target_request_id or cancel_request_id"@,
{
    "cancel request requires target_request_id or cancel_request_id"
}

/// The answer to a cancel request whose target was looked up among the
/// running requests (`target_running`) and, if running, handed to the
/// engine, which said whether it could cancel it (`cancelled`): accepted,
/// or an invalid-request error with its message.
pub fn cancel_answer(target_running: bool, cancelled: bool) -> (r: Result<(), &'static str>)
    ensures
        !target_running ==> (r matches Err(m) && m@ == "target_request_id is not running"@),
        target_running && !cancelled ==> (r matches Err(m) && m@
            == "target_request_id is not cancelable"@),
        target_running && cancelled ==> r is Ok,
{
    if !target_running {
        Err("target_request_id is not running")
    } else if !cancelled {
        Err("target_request_id is not cancelable")
    } else {
        Ok(())
    }
}

/// The error message of a run request whose id is already running.
pub fn already_in_progress_message() -> (m: &'static str)
    ensures
        m@ == "request_id is already in progress"@,
{
    "request_id is already in progress"
}

/// The error message of an input line that is not valid JSON.
pub fn invalid_json_message(detail: &str) -> (m: String)
    ensures
        m@ == "invalid JSON payload: "@ + detail@,
{
    let mut m = owned("invalid JSON payload: ");
    m.append(detail);
    m
}

/// The time budget of a run request: its own, else two minutes.
pub fn run_timeout_ms(timeout_ms: Option<u64>) -> (t: u64)
    ensures
        t == match timeout_ms {
            Some(v) => v,
            None => 120_000,
        },
{
    match timeout_ms {
        Some(v) => v,
        None => 120_000,
    }
}

/// What the host does with an input line.
#[derive(Debug, Clone, Copy, PartialEq, Eq, Structural)]
pub enum LineAction {
    /// Parse and handle the line.
    Handle,
    /// Ignore the blank line.
    Skip,
    /// Stop with a protocol error: a blank line in single-request mode.
    Reject,
}

/// What to do with an input line: blank lines are skipped, except in
/// single-request mode, where they end the host with a protocol error.
pub fn line_action(line: &str, single_request: bool) -> (a: LineAction)
    ensures
        !is_blank(line@) ==> a == LineAction::Handle,
        is_blank(line@) && single_request ==> a == LineAction::Reject,
        is_blank(line@) && !single_request ==> a == LineAction::Skip,
{
    if str_is_blank(line) {
        if single_request {
            LineAction::Reject
        } else {
            LineAction::Skip
        }
    } else {
        LineAction::Handle
    }
}

// ---------------------------------------------------------------------------
// Settings
// ---------------------------------------------------------------------------

/// Whether `c` is an ASCII digit.
pub open spec fn is_digit_char(c: char) -> bool {
    '0' <= c && c <= '9'
}

/// The value of a string of ASCII digits.
pub open spec fn digits_value(s: Seq<char>) -> nat
    decreases s.len(),
{
    if s.len() == 0 {
        0
    } else {
        digits_value(s.drop_last()) * 10 + ((s.last() as u32) - ('0' as u32)) as nat
    }
}

/// `s` without a leading `'+'`.
pub open spec fn unsigned_digits(s: Seq<char>) -> Seq<char> {
    if s.len() > 0 && s[0] == '+' {
        s.drop_first()
    } else {
        s
    }
}

/// Every character of `t` is an ASCII digit.
pub open spec fn all_digits(t: Seq<char>) -> bool {
    forall|i: int| 0 <= i < t.len() ==> is_digit_char(#[trigger] t[i])
}

/// The unsigned integer `s` denotes, as `str::parse` reads it: an optional
/// `'+'`, then at least one ASCII digit, with a value of at most `max`.
pub open spec fn parse_unsigned_spec(s: Seq<char>, max: nat) -> Option<nat> {
    let t = unsigned_digits(s);
    if t.len() == 0 || !all_digits(t) {
        None
    } else if digits_value(t) > max {
        None
    } else {
        Some(digits_value(t))
    }
}

/// Parses an unsigned 64-bit integer (`str::parse::<u64>`).
pub fn parse_u64(s: &str) -> (r: Option<u64>)
    ensures
        match r {
            Some(v) => parse_unsigned_spec(s@, u64::MAX as nat) == Some(v as nat),
            None => parse_unsigned_spec(s@, u64::MAX as nat) is None,
        },
{
    let v = chars_of(s);
    let start: usize = if v.len() > 0 && v[0] == '+' {
        1
    } else {
        0
    };
    let ghost t = unsigned_digits(s@);
    assert(t =~= v@.skip(start as int));
    if start >= v.len() {
        assert(t.len() == 0);
        return None;
    }
    let mut acc: u64 = 0;
    let mut i = start;
    assert(v@.subrange(start as int, start as int) =~= Seq::<char>::empty());
    while i < v.len()
        invariant
            start <= i <= v.len(),
            v@ == s@,
            t == unsigned_digits(s@),
            t == v@.skip(start as int),
            acc as nat == digits_value(v@.subrange(start as int, i as int)),
            forall|k: int| start <= k < i ==> is_digit_char(#[trigger] v@[k]),
        decreases v.len() - i,
    {
        let c = v[i];
        if !('0' <= c && c <= '9') {
            proof {
                assert(t[i - start] == c);
                assert(!is_digit_char(t[i - start]));
                assert(exists|k: int| 0 <= k < t.len() && !is_digit_char(#[trigger] t[k]));
                assert(parse_unsigned_spec(s@, u64::MAX as nat) is None);
            }
            return None;
        }
        let d = (c as u32) - ('0' as u32);
        proof {
            let pre = v@.subrange(start as int, i as int);
            let post = v@.subrange(start as int, i + 1);
            assert(post.drop_last() =~= pre);
            assert(post.last() == c);
        }
        if acc > (u64::MAX - d as u64) / 10 {
            proof {
                let post = v@.subrange(start as int, i + 1);
                let dv = digits_value(post);
                assert(dv == acc * 10 + d);
                assert(acc * 10 + d > u64::MAX) by (nonlinear_arith)
                    requires
                        acc > (u64::MAX - d) / 10,
                        d <= 9,
                ;
                let n = (i + 1 - start) as int;
                assert(t.subrange(0, n) =~= post);
                lemma_digits_value_prefix(t, n);
                assert(parse_unsigned_spec(s@, u64::MAX as nat) is None);
            }
            return None;
        }
        acc = acc * 10 + d as u64;
        i = i + 1;
    }
    proof {
        assert(v@.subrange(start as int, v.len() as int) =~= t);
        assert forall|k: int| 0 <= k < t.len() implies is_digit_char(#[trigger] t[k]) by {
            assert(t[k] == v@[start + k]);
        }
    }
    Some(acc)
}

/// A longer all-digit prefix never has a smaller value.
proof fn lemma_digits_value_prefix(t: Seq<char>, n: int)
    requires
        0 <= n <= t.len(),
    ensures
        (forall|k: int| 0 <= k < t.len() ==> is_digit_char(#[trigger] t[k])) ==> digits_value(t)
            >= digits_value(t.subrange(0, n)),
    decreases t.len() - n,
{
    if n < t.len() {
        lemma_digits_value_prefix(t, n + 1);
        let a = t.subrange(0, n + 1);
        assert(a.drop_last() =~= t.subrange(0, n));
        if forall|k: int| 0 <= k < t.len() ==> is_digit_char(#[trigger] t[k]) {
            assert(is_digit_char(t[n]));
            assert(digits_value(a) >= digits_value(t.subrange(0, n))) by (nonlinear_arith)
                requires
                    digits_value(a) == digits_value(a.drop_last()) * 10 + ((a.last() as u32) - (
                    '0' as u32)) as nat,
                    a.drop_last() == t.subrange(0, n),
            ;
        }
    } else {
        assert(t.subrange(0, n) =~= t);
    }
}

/// The largest number of runs the host handles at once: the setting when it
/// is a positive number, 8 otherwise.
pub fn read_max_concurrency(setting: Option<&str>) -> (n: usize)
    ensures
        match setting {
            Some(s) => match parse_unsigned_spec(s@, usize::MAX as nat) {
                Some(v) => if v > 0 {
                    n == v
                } else {
                    n == 8
                },
                None => n == 8,
            },
            None => n == 8,
        },
{
    match setting {
        Some(s) => match parse_u64(s) {
            Some(v) => {
                if v > usize::MAX as u64 {
                    proof {
                        assert(parse_unsigned_spec(s@, usize::MAX as nat) is None);
                    }
                    8
                } else if v > 0 {
                    proof {
                        assert(parse_unsigned_spec(s@, usize::MAX as nat) == Some(v as nat));
                    }
                    v as usize
                } else {
                    proof {
                        assert(parse_unsigned_spec(s@, usize::MAX as nat) == Some(0nat));
                    }
                    8
                }
            },
            None => {
                proof {
                    if parse_unsigned_spec(s@, usize::MAX as nat) is Some {
                        assert(usize::MAX as nat <= u64::MAX as nat);
                    }
                }
                8
            },
        },
        None => 8,
    }
}

/// How long the host waits for an input line, in milliseconds: the command
/// line's value, else the setting when it is a number, else 15000.
pub fn read_stdin_timeout_ms(cli_timeout_ms: Option<u64>, setting: Option<&str>) -> (t: u64)
    ensures
        match cli_timeout_ms {
            Some(v) => t == v,
            None => match setting {
                Some(s) => match parse_unsigned_spec(s@, u64::MAX as nat) {
                    Some(v) => t == v,
                    None => t == 15000,
                },
                None => t == 15000,
            },
        },
{
    match cli_timeout_ms {
        Some(v) => v,
        None => match setting {
            Some(s) => match parse_u64(s) {
                Some(v) => v,
                None => 15000,
            },
            None => 15000,
        },
    }
}

} // verus!
