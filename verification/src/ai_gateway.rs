//! Retrying, circuit-breaking client for huggian-core's AI gateway
//! (`POST /api/ai/complete`, `POST /api/ai/complete-structured`).
//!
//! Every consumer of huggian's AI gateway shares one tuned retry/breaker
//! implementation instead of each hand-rolling its own. It deliberately does NOT
//! define a pluggable-provider trait or read env vars itself — those are a
//! consumer's own architecture and stay in that consumer's code. This module is
//! the wire client's decisions + the error taxonomy that mirrors huggian's own
//! contract; the caller sends, sleeps and tells the time.

use crate::http::is_server_error;
use crate::json::read_text_field;
use crate::text::{decimal_text, same_text, trim_end_slashes};
use crate::time::Nanos;
use rand::Rng;
use serde_json::Value;
use vstd::prelude::*;

verus! {

/// Mirrors the closed `AIErrorCode` enum emitted by huggian's AI gateway
/// in the `error_code` JSON field. See
/// huggian-management/services/core/src/contexts/ai/domain/types.ts.
#[derive(Debug, Clone, Copy, PartialEq, Eq, Structural)]
pub enum AiErrorCode {
    NoProvider,
    ProviderMisconfigured,
    UpstreamError,
    UpstreamTimeout,
    RateLimit,
    InvalidJson,
    InvalidToken,
    Unknown,
}

impl AiErrorCode {
    /// The code's name on the wire.
    pub open spec fn wire_name(self) -> &'static str {
        match self {
            AiErrorCode::NoProvider => "no_provider",
            AiErrorCode::ProviderMisconfigured => "provider_misconfigured",
            AiErrorCode::UpstreamError => "upstream_error",
            AiErrorCode::UpstreamTimeout => "upstream_timeout",
            AiErrorCode::RateLimit => "rate_limit",
            AiErrorCode::InvalidJson => "invalid_json",
            AiErrorCode::InvalidToken => "invalid_token",
            AiErrorCode::Unknown => "unknown",
        }
    }

    /// The code of a name: `Unknown` for any name but the seven others'.
    pub open spec fn named(name: Seq<char>) -> AiErrorCode {
        if name == "no_provider"@ {
            AiErrorCode::NoProvider
        } else if name == "provider_misconfigured"@ {
            AiErrorCode::ProviderMisconfigured
        } else if name == "upstream_error"@ {
            AiErrorCode::UpstreamError
        } else if name == "upstream_timeout"@ {
            AiErrorCode::UpstreamTimeout
        } else if name == "rate_limit"@ {
            AiErrorCode::RateLimit
        } else if name == "invalid_json"@ {
            AiErrorCode::InvalidJson
        } else if name == "invalid_token"@ {
            AiErrorCode::InvalidToken
        } else {
            AiErrorCode::Unknown
        }
    }

    /// The code of a body's `error_code`: `Unknown` where there is none.
    pub open spec fn of_field(field: Option<Seq<char>>) -> AiErrorCode {
        match field {
            Some(name) => AiErrorCode::named(name),
            None => AiErrorCode::Unknown,
        }
    }

    pub fn parse(s: &str) -> (code: Self)
        ensures
            code == AiErrorCode::named(s@),
    {
        if same_text(s, "no_provider") {
            AiErrorCode::NoProvider
        } else if same_text(s, "provider_misconfigured") {
            AiErrorCode::ProviderMisconfigured
        } else if same_text(s, "upstream_error") {
            AiErrorCode::UpstreamError
        } else if same_text(s, "upstream_timeout") {
            AiErrorCode::UpstreamTimeout
        } else if same_text(s, "rate_limit") {
            AiErrorCode::RateLimit
        } else if same_text(s, "invalid_json") {
            AiErrorCode::InvalidJson
        } else if same_text(s, "invalid_token") {
            AiErrorCode::InvalidToken
        } else {
            AiErrorCode::Unknown
        }
    }

    pub fn as_str(self) -> (name: &'static str)
        ensures
            name == self.wire_name(),
    {
        match self {
            AiErrorCode::NoProvider => "no_provider",
            AiErrorCode::ProviderMisconfigured => "provider_misconfigured",
            AiErrorCode::UpstreamError => "upstream_error",
            AiErrorCode::UpstreamTimeout => "upstream_timeout",
            AiErrorCode::RateLimit => "rate_limit",
            AiErrorCode::InvalidJson => "invalid_json",
            AiErrorCode::InvalidToken => "invalid_token",
            AiErrorCode::Unknown => "unknown",
        }
    }
}

/// Best-effort parse of `error_code` from huggian's standard error JSON
/// shape `{ "error": "...", "error_code": "...", "request_id": "..." }`.
/// Returns `Unknown` if parse fails or field absent.
pub fn parse_error_code(body: &str) -> (code: AiErrorCode)
    ensures
        code == AiErrorCode::of_field(crate::json::json_text_field(body@, "error_code"@)),
{
    match read_text_field(body, "error_code") {
        Some(name) => AiErrorCode::parse(name.as_str()),
        None => AiErrorCode::Unknown,
    }
}

/// Best-effort parse of `error`, the message of huggian's standard error JSON shape.
pub fn parse_error_message(body: &str) -> (message: Option<String>)
    ensures
        message.deep_view() == crate::json::json_text_field(body@, "error"@),
{
    read_text_field(body, "error")
}

#[derive(Debug, Clone)]
pub enum AiGatewayError {
    NoProvider,
    ProviderMisconfigured(String),
    RateLimited,
    UpstreamTimeout,
    InvalidJson,
    Upstream { status: u16, code: AiErrorCode, body: String },
    Transport(String),
    Deserialization(String),
    /// [`HuggianAiClient`]'s per-instance circuit breaker is open — too
    /// many consecutive availability failures, so this call was
    /// short-circuited with ZERO HTTP requests. Distinct from `NoProvider`
    /// (huggian's gateway itself saying "no provider configured", a 503
    /// wire response) — this one never left the process.
    CircuitOpen { last: AiErrorCode },
}

/// An [`AiGatewayError`], its texts as sequences of characters.
pub enum AiGatewayErrorView {
    NoProvider,
    ProviderMisconfigured(Seq<char>),
    RateLimited,
    UpstreamTimeout,
    InvalidJson,
    Upstream { status: u16, code: AiErrorCode, body: Seq<char> },
    Transport(Seq<char>),
    Deserialization(Seq<char>),
    CircuitOpen { last: AiErrorCode },
}

impl View for AiGatewayError {
    type V = AiGatewayErrorView;

    open spec fn view(&self) -> AiGatewayErrorView {
        match *self {
            AiGatewayError::NoProvider => AiGatewayErrorView::NoProvider,
            AiGatewayError::ProviderMisconfigured(why) =>
                AiGatewayErrorView::ProviderMisconfigured(why@),
            AiGatewayError::RateLimited => AiGatewayErrorView::RateLimited,
            AiGatewayError::UpstreamTimeout => AiGatewayErrorView::UpstreamTimeout,
            AiGatewayError::InvalidJson => AiGatewayErrorView::InvalidJson,
            AiGatewayError::Upstream { status, code, body } => AiGatewayErrorView::Upstream {
                status,
                code,
                body: body@,
            },
            AiGatewayError::Transport(why) => AiGatewayErrorView::Transport(why@),
            AiGatewayError::Deserialization(why) => AiGatewayErrorView::Deserialization(why@),
            AiGatewayError::CircuitOpen { last } => AiGatewayErrorView::CircuitOpen { last },
        }
    }
}

impl AiGatewayErrorView {
    /// The error in words.
    pub open spec fn message(self) -> Seq<char> {
        match self {
            AiGatewayErrorView::NoProvider => "no provider available (503)"@,
            AiGatewayErrorView::ProviderMisconfigured(why) => "provider misconfigured (503): "@
                + why,
            AiGatewayErrorView::RateLimited => "rate limited (429)"@,
            AiGatewayErrorView::UpstreamTimeout => "upstream timeout (504)"@,
            AiGatewayErrorView::InvalidJson => "invalid json from provider (422)"@,
            AiGatewayErrorView::Upstream { status, code, body } => "upstream error "@
                + crate::text::decimal(status as nat) + " ["@ + code.wire_name()@ + "]: "@ + body,
            AiGatewayErrorView::Transport(why) => "transport: "@ + why,
            AiGatewayErrorView::Deserialization(why) => "deserialization: "@ + why,
            AiGatewayErrorView::CircuitOpen { last } =>
                "ai gateway circuit breaker open (last upstream failure: "@ + last.wire_name()@
                + ") — call not attempted"@,
        }
    }

    /// The code that stands for the error.
    pub open spec fn code(self) -> AiErrorCode {
        match self {
            AiGatewayErrorView::NoProvider => AiErrorCode::NoProvider,
            AiGatewayErrorView::ProviderMisconfigured(_) => AiErrorCode::ProviderMisconfigured,
            AiGatewayErrorView::RateLimited => AiErrorCode::RateLimit,
            AiGatewayErrorView::UpstreamTimeout => AiErrorCode::UpstreamTimeout,
            AiGatewayErrorView::InvalidJson => AiErrorCode::InvalidJson,
            AiGatewayErrorView::Upstream { code, .. } => code,
            AiGatewayErrorView::CircuitOpen { last } => last,
            AiGatewayErrorView::Transport(_) => AiErrorCode::Unknown,
            AiGatewayErrorView::Deserialization(_) => AiErrorCode::Unknown,
        }
    }

    /// Whether the error means that the provider or the gateway is down.
    pub open spec fn is_availability_failure(self) -> bool {
        match self {
            AiGatewayErrorView::RateLimited => true,
            AiGatewayErrorView::UpstreamTimeout => true,
            AiGatewayErrorView::NoProvider => true,
            AiGatewayErrorView::ProviderMisconfigured(_) => true,
            AiGatewayErrorView::Transport(_) => true,
            AiGatewayErrorView::Upstream { status, .. } => crate::http::server_error_status(status),
            AiGatewayErrorView::InvalidJson => false,
            AiGatewayErrorView::Deserialization(_) => false,
            AiGatewayErrorView::CircuitOpen { .. } => false,
        }
    }
}

impl AiGatewayError {
    /// The error in words.
    pub fn message(&self) -> (message: String)
        ensures
            message@ == self@.message(),
    {
        match self {
            AiGatewayError::NoProvider => "no provider available (503)".to_string(),
            AiGatewayError::ProviderMisconfigured(why) =>
                "provider misconfigured (503): ".to_string().concat(why.as_str()),
            AiGatewayError::RateLimited => "rate limited (429)".to_string(),
            AiGatewayError::UpstreamTimeout => "upstream timeout (504)".to_string(),
            AiGatewayError::InvalidJson => "invalid json from provider (422)".to_string(),
            AiGatewayError::Upstream { status, code, body } => "upstream error ".to_string().concat(
                decimal_text(*status).as_str(),
            ).concat(" [").concat(code.as_str()).concat("]: ").concat(body.as_str()),
            AiGatewayError::Transport(why) => "transport: ".to_string().concat(why.as_str()),
            AiGatewayError::Deserialization(why) => "deserialization: ".to_string().concat(
                why.as_str(),
            ),
            AiGatewayError::CircuitOpen { last } =>
                "ai gateway circuit breaker open (last upstream failure: ".to_string().concat(
                last.as_str(),
            ).concat(") — call not attempted"),
        }
    }

    /// The closed error-code taxonomy this client ever produces — a
    /// caller's degradation path should switch on this rather than
    /// re-deriving it from the variant, so a new caller can't accidentally
    /// branch on prose.
    pub fn code(&self) -> (code: AiErrorCode)
        ensures
            code == self@.code(),
    {
        match self {
            AiGatewayError::NoProvider => AiErrorCode::NoProvider,
            AiGatewayError::ProviderMisconfigured(_) => AiErrorCode::ProviderMisconfigured,
            AiGatewayError::RateLimited => AiErrorCode::RateLimit,
            AiGatewayError::UpstreamTimeout => AiErrorCode::UpstreamTimeout,
            AiGatewayError::InvalidJson => AiErrorCode::InvalidJson,
            AiGatewayError::Upstream { code, .. } => *code,
            // Report the failure that OPENED the breaker, so usage rows and
            // the degradation path stay semantically identical to the call
            // we would have made had we attempted it. The distinct VARIANT
            // (and its message) is what tells an operator this call never
            // left the process.
            AiGatewayError::CircuitOpen { last } => *last,
            AiGatewayError::Transport(_) => AiErrorCode::Unknown,
            AiGatewayError::Deserialization(_) => AiErrorCode::Unknown,
        }
    }
}

/// Token usage huggian's gateway echoes back in the `usage
/// {input_tokens, output_tokens}` field once a caller opts in wire-side.
/// Absent on any response from a gateway build that doesn't send it — a
/// caller must treat `None` as "unknown", never as "zero cost".
#[derive(Debug, Clone, Copy, PartialEq, Eq, Structural)]
pub struct Usage {
    pub input_tokens: u64,
    pub output_tokens: u64,
}

impl Default for Usage {
    fn default() -> (usage: Self)
        ensures
            usage == (Usage { input_tokens: 0, output_tokens: 0 }),
    {
        Usage { input_tokens: 0, output_tokens: 0 }
    }
}

#[derive(Debug, Clone)]
pub struct HuggianAiConfig {
    pub base_url: String,
    pub service_token: String,
    pub timeout: Nanos,
    pub max_retries: u32,
    /// Consecutive availability failures (transport/5xx/503/504/429 — see
    /// [`is_availability_failure`]) before the circuit breaker opens.
    pub breaker_threshold: u32,
    /// How long the breaker stays open before allowing one half-open probe.
    pub breaker_cooldown: Nanos,
}

#[derive(Debug, Clone)]
pub struct Completion {
    pub text: String,
    pub usage: Option<Usage>,
}

#[derive(Debug)]
pub struct StructuredCompletion {
    pub data: Value,
    pub usage: Option<Usage>,
}

impl Clone for StructuredCompletion {
    fn clone(&self) -> (copy: Self)
        ensures
            copy == *self,
    {
        StructuredCompletion { data: self.data.clone(), usage: self.usage }
    }
}

/// Wire shape of huggian's `usage {input_tokens, output_tokens}` field. A gateway
/// build that hasn't shipped it yet simply omits it.
#[derive(Debug)]
pub struct UsageWire {
    pub input_tokens: u64,
    pub output_tokens: u64,
}

impl vstd::std_specs::convert::FromSpecImpl<UsageWire> for Usage {
    open spec fn obeys_from_spec() -> bool {
        true
    }

    open spec fn from_spec(u: UsageWire) -> Self {
        Usage { input_tokens: u.input_tokens, output_tokens: u.output_tokens }
    }
}

impl From<UsageWire> for Usage {
    fn from(u: UsageWire) -> (usage: Self) {
        Usage { input_tokens: u.input_tokens, output_tokens: u.output_tokens }
    }
}

/// What the gateway answers to a completion.
#[derive(Debug)]
pub struct CompleteResponse {
    pub text: String,
    pub usage: Option<UsageWire>,
}

/// What the gateway answers to a structured completion.
#[derive(Debug)]
pub struct StructuredResponse {
    pub data: Value,
    pub usage: Option<UsageWire>,
}

/// The usage that came over the wire, if it did.
pub open spec fn usage_of(wire: Option<UsageWire>) -> Option<Usage> {
    match wire {
        Some(u) => Some(Usage { input_tokens: u.input_tokens, output_tokens: u.output_tokens }),
        None => None,
    }
}

fn received_usage(wire: Option<UsageWire>) -> (usage: Option<Usage>)
    ensures
        usage == usage_of(wire),
{
    match wire {
        Some(u) => Some(Usage::from(u)),
        None => None,
    }
}

/// The completion in an answer, or the error of one that is not of that shape.
pub fn completion(answer: Result<CompleteResponse, String>) -> (completion: Result<
    Completion,
    AiGatewayError,
>)
    ensures
        completion == match answer {
            Ok(response) => Ok(
                Completion { text: response.text, usage: usage_of(response.usage) },
            ),
            Err(error) => Err(AiGatewayError::Deserialization(error)),
        },
{
    match answer {
        Ok(response) => Ok(
            Completion { text: response.text, usage: received_usage(response.usage) },
        ),
        Err(error) => Err(AiGatewayError::Deserialization(error)),
    }
}

/// The structured completion in an answer, or the error of one that is not of that
/// shape.
pub fn structured_completion(answer: Result<StructuredResponse, String>) -> (completion: Result<
    StructuredCompletion,
    AiGatewayError,
>)
    ensures
        completion == match answer {
            Ok(response) => Ok(
                StructuredCompletion { data: response.data, usage: usage_of(response.usage) },
            ),
            Err(error) => Err(AiGatewayError::Deserialization(error)),
        },
{
    match answer {
        Ok(response) => Ok(
            StructuredCompletion { data: response.data, usage: received_usage(response.usage) },
        ),
        Err(error) => Err(AiGatewayError::Deserialization(error)),
    }
}

/// Only failures that mean "the provider/gateway is unreachable or down"
/// count toward tripping the breaker. `InvalidJson` (422) and
/// `Deserialization` are the model/gateway answering successfully with a
/// body we couldn't use — a formatting problem, not a downtime signal —
/// tripping the breaker on those would take a reachable gateway offline
/// over bad output. `CircuitOpen` never reaches this classifier: the
/// breaker short-circuits before a call is made, so there's no outcome to
/// record.
///
/// `Upstream` is deliberately NOT blanket-true. It is the catch-all built
/// for every response that isn't 429/503/504/422, which includes the gateway's
/// **client** errors: a 400 from its zod validation (an oversized prompt, a bad
/// `timeout_ms`) and a 401 for a missing or rotated service token. Neither means
/// the provider is down. Counting them would let one malformed batch item — or
/// a token rotation — trip the breaker and deny service to every other
/// healthy caller on this instance.
pub fn is_availability_failure(e: &AiGatewayError) -> (counts: bool)
    ensures
        counts == e@.is_availability_failure(),
{
    match e {
        AiGatewayError::RateLimited => true,
        AiGatewayError::UpstreamTimeout => true,
        AiGatewayError::NoProvider => true,
        AiGatewayError::ProviderMisconfigured(_) => true,
        AiGatewayError::Transport(_) => true,
        AiGatewayError::Upstream { status, .. } => is_server_error(*status),
        AiGatewayError::InvalidJson => false,
        AiGatewayError::Deserialization(_) => false,
        AiGatewayError::CircuitOpen { .. } => false,
    }
}

// -- circuit breaker --------------------------------------------------------------

/// The longest time a clock reads or a cooldown lasts: what a `std::time::Duration`
/// can hold.
pub const MAX_NANOS: Nanos = 18_446_744_073_709_551_615_999_999_999;

#[derive(Debug, Clone, Copy, PartialEq, Eq, Structural)]
pub enum BreakerPhase {
    Closed,
    /// Rejecting every call with zero HTTP requests until `open_until`.
    Open,
    /// Cooldown elapsed; exactly one call is let through as a probe.
    HalfOpen,
}

#[derive(Debug, Clone, Copy)]
pub struct BreakerState {
    pub phase: BreakerPhase,
    pub consecutive_failures: u32,
    pub open_until: Nanos,
    /// The code of the failure that opened the breaker, replayed to callers
    /// while it stays open. Stored as the code rather than the whole error so
    /// no large body string is cloned on every short-circuited call.
    pub last_code: Option<AiErrorCode>,
}

/// Breaker scoped to ONE [`HuggianAiClient`] instance — callers that want
/// independent trip state per module/provider construct their own client.
///
/// The caller tells the time, by a clock that never goes back.
#[derive(Debug, Clone, Copy)]
pub struct CircuitBreaker {
    pub state: BreakerState,
    pub threshold: u32,
    pub cooldown: Nanos,
}

impl CircuitBreaker {
    /// How many consecutive availability failures open the breaker: one at least.
    pub open spec fn limit(self) -> int {
        if self.threshold > 0 {
            self.threshold as int
        } else {
            1
        }
    }

    /// A closed breaker has not counted as many failures as open it, and one that
    /// is not closed knows which failure opened it.
    pub open spec fn wf(self) -> bool {
        &&& self.cooldown <= MAX_NANOS
        &&& self.state.phase == BreakerPhase::Closed ==> self.state.consecutive_failures
            < self.limit()
        &&& self.state.phase != BreakerPhase::Closed ==> self.state.last_code is Some
    }

    /// Whether a call is turned away.
    pub open spec fn blocks(self, now: Nanos) -> bool {
        match self.state.phase {
            BreakerPhase::Closed => false,
            BreakerPhase::HalfOpen => true,
            BreakerPhase::Open => now < self.state.open_until,
        }
    }

    /// The error that a call is turned away with.
    pub open spec fn refusal(self) -> AiGatewayErrorView {
        AiGatewayErrorView::CircuitOpen {
            last: match self.state.last_code {
                Some(code) => code,
                None => AiErrorCode::Unknown,
            },
        }
    }

    /// The breaker after it let a call through: through an open one it is a probe.
    pub open spec fn admitted(self) -> CircuitBreaker {
        CircuitBreaker {
            state: BreakerState {
                phase: if self.state.phase == BreakerPhase::Open {
                    BreakerPhase::HalfOpen
                } else {
                    self.state.phase
                },
                ..self.state
            },
            ..self
        }
    }

    /// The breaker closed, with no failure counted.
    pub open spec fn closed(self) -> CircuitBreaker {
        CircuitBreaker {
            state: BreakerState {
                phase: BreakerPhase::Closed,
                consecutive_failures: 0,
                open_until: self.state.open_until,
                last_code: None,
            },
            ..self
        }
    }

    /// The failures counted after one more.
    pub open spec fn one_more(self) -> u32 {
        if self.state.consecutive_failures < u32::MAX {
            (self.state.consecutive_failures + 1) as u32
        } else {
            u32::MAX
        }
    }

    /// Whether one more availability failure leaves the breaker open.
    pub open spec fn trips(self) -> bool {
        self.state.phase == BreakerPhase::HalfOpen || self.one_more() >= self.threshold
    }

    /// The breaker after an availability failure. The cooldown starts, and the code to
    /// replay is taken, only where the breaker was not open yet.
    pub open spec fn failed(self, code: AiErrorCode, now: Nanos) -> CircuitBreaker {
        CircuitBreaker {
            state: BreakerState {
                phase: if self.trips() {
                    BreakerPhase::Open
                } else {
                    self.state.phase
                },
                consecutive_failures: self.one_more(),
                open_until: if self.trips() && self.state.phase != BreakerPhase::Open {
                    (now + self.cooldown) as Nanos
                } else {
                    self.state.open_until
                },
                last_code: if self.state.phase == BreakerPhase::Open {
                    self.state.last_code
                } else {
                    Some(code)
                },
            },
            ..self
        }
    }

    /// The breaker after the outcome of a call: `None` is a success.
    pub open spec fn settled(self, failure: Option<AiGatewayErrorView>, now: Nanos) -> CircuitBreaker {
        match failure {
            None => self.closed(),
            Some(e) => if e.is_availability_failure() {
                self.failed(e.code(), now)
            } else if self.state.phase == BreakerPhase::HalfOpen {
                self.closed()
            } else {
                self
            },
        }
    }

    pub fn new(threshold: u32, cooldown: Nanos, now: Nanos) -> (breaker: Self)
        requires
            cooldown <= MAX_NANOS,
        ensures
            breaker.wf(),
            breaker == (CircuitBreaker {
                state: BreakerState {
                    phase: BreakerPhase::Closed,
                    consecutive_failures: 0,
                    open_until: now,
                    last_code: None,
                },
                threshold,
                cooldown,
            }),
    {
        CircuitBreaker {
            state: BreakerState {
                phase: BreakerPhase::Closed,
                consecutive_failures: 0,
                open_until: now,
                last_code: None,
            },
            threshold,
            cooldown,
        }
    }

    fn blocked(code: Option<AiErrorCode>) -> (refusal: AiGatewayError)
        ensures
            refusal == (AiGatewayError::CircuitOpen {
                last: match code {
                    Some(code) => code,
                    None => AiErrorCode::Unknown,
                },
            }),
    {
        AiGatewayError::CircuitOpen {
            last: match code {
                Some(code) => code,
                None => AiErrorCode::Unknown,
            },
        }
    }

    /// Called before every network attempt. `Err` means: breaker open (or
    /// a half-open probe is already in flight) — return immediately,
    /// making zero HTTP requests. `Ok` covers normal Closed traffic AND
    /// the single probe let through on the Open -> HalfOpen transition,
    /// and the caller MUST settle the call, with [`after_call`](Self::after_call)
    /// or [`abandon`](Self::abandon).
    pub fn before_call(&mut self, now: Nanos) -> (admission: Result<(), AiGatewayError>)
        requires
            old(self).wf(),
        ensures
            final(self).wf(),
            if old(self).blocks(now) {
                *final(self) == *old(self) && (admission matches Err(e) && e@ == old(
                    self,
                ).refusal())
            } else {
                *final(self) == old(self).admitted() && admission is Ok
            },
    {
        match self.state.phase {
            BreakerPhase::Closed => Ok(()),
            BreakerPhase::HalfOpen => Err(Self::blocked(self.state.last_code)),
            BreakerPhase::Open => if now < self.state.open_until {
                Err(Self::blocked(self.state.last_code))
            } else {
                self.state.phase = BreakerPhase::HalfOpen;
                Ok(())
            },
        }
    }

    /// Called once with the outcome of a call `before_call` admitted.
    pub fn after_call(&mut self, result: &Result<Value, AiGatewayError>, now: Nanos)
        requires
            old(self).wf(),
            now <= MAX_NANOS,
        ensures
            final(self).wf(),
            *final(self) == old(self).settled(
                match *result {
                    Ok(_) => None,
                    Err(e) => Some(e@),
                },
                now,
            ),
    {
        match result {
            Ok(_) => {
                self.state.phase = BreakerPhase::Closed;
                self.state.consecutive_failures = 0;
                self.state.last_code = None;
            },
            Err(e) => if is_availability_failure(e) {
                if self.state.phase != BreakerPhase::Open {
                    self.state.last_code = Some(e.code());
                }
                self.state.consecutive_failures =
                self.state.consecutive_failures.saturating_add(1);
                if self.state.phase == BreakerPhase::HalfOpen || self.state.consecutive_failures
                    >= self.threshold {
                    // Arm the cooldown only on the TRANSITION into Open. Once
                    // `consecutive_failures >= threshold` it stays true until a
                    // success, so re-arming on every later failure would let calls
                    // admitted before the trip — still completing, each up to
                    // `cfg.timeout` later — keep sliding `open_until` forward
                    // off the last straggler rather than the triggering
                    // failure, silently multiplying the intended cooldown.
                    if self.state.phase != BreakerPhase::Open {
                        self.state.open_until = now + self.cooldown;
                    }
                    self.state.phase = BreakerPhase::Open;
                }
            } else {
                // Non-availability failure: the gateway answered, so it's
                // reachable. Closes a half-open probe; otherwise doesn't
                // touch the Closed failure streak either way.
                if self.state.phase == BreakerPhase::HalfOpen {
                    self.state.phase = BreakerPhase::Closed;
                    self.state.consecutive_failures = 0;
                    self.state.last_code = None;
                }
            },
        }
    }

    /// Records an admitted call that never completed — cancelled (a handler whose
    /// client disconnected, a `select!` that lost) or panicked — as an availability
    /// failure rather than letting it silently vanish.
    ///
    /// Without this, an admitted HALF-OPEN probe that never completes would strand
    /// the breaker in `HalfOpen` forever: `before_call` would then reject every
    /// subsequent call. Recording the abandoned probe as a failure sends it to `Open`
    /// with a fresh cooldown instead, so it self-heals.
    pub fn abandon(&mut self, now: Nanos)
        requires
            old(self).wf(),
            now <= MAX_NANOS,
        ensures
            final(self).wf(),
            *final(self) == old(self).failed(AiErrorCode::Unknown, now),
    {
        let outcome = Err(
            AiGatewayError::Transport(
                "call abandoned before completion (cancelled or panicked)".to_string(),
            ),
        );
        self.after_call(&outcome, now);
    }
}

// -- retries ----------------------------------------------------------------------

/// What came of sending a request once.
#[derive(Debug)]
pub enum Response {
    /// A 2xx, and its body as JSON or why it could not be read as such.
    Json(Result<Value, String>),
    /// Any other status, and the body if it could be read.
    Refused { status: u16, body: Option<String> },
    /// No answer. `transient` says that it was a timeout or a failure to connect.
    Unsent { transient: bool, error: String },
}

/// A result, the texts of its error as sequences of characters.
pub open spec fn outcome(result: Result<Value, AiGatewayError>) -> Result<Value, AiGatewayErrorView> {
    match result {
        Ok(value) => Ok(value),
        Err(e) => Err(e@),
    }
}

impl HuggianAiConfig {
    /// What a refusal comes to: an error, or `None` for another attempt. `code` and
    /// `message` are what the body says of itself.
    pub open spec fn verdict(
        self,
        attempt: u32,
        status: u16,
        code: AiErrorCode,
        message: Option<Seq<char>>,
        body: Seq<char>,
    ) -> Option<AiGatewayErrorView> {
        if status == 429 {
            if attempt < self.max_retries {
                None
            } else {
                Some(AiGatewayErrorView::RateLimited)
            }
        } else if status == 503 {
            if code == AiErrorCode::ProviderMisconfigured {
                Some(
                    AiGatewayErrorView::ProviderMisconfigured(
                        match message {
                            Some(message) => message,
                            None => seq![],
                        },
                    ),
                )
            } else {
                Some(AiGatewayErrorView::NoProvider)
            }
        } else if status == 504 {
            Some(AiGatewayErrorView::UpstreamTimeout)
        } else if status == 422 {
            Some(AiGatewayErrorView::InvalidJson)
        } else if crate::http::server_error_status(status) && code == AiErrorCode::Unknown && attempt
            < self.max_retries {
            None
        } else {
            Some(AiGatewayErrorView::Upstream { status, code, body })
        }
    }

    /// What a response to an attempt comes to: the call's outcome, or `None` for
    /// another attempt.
    pub open spec fn judged(self, attempt: u32, response: Response) -> Option<
        Result<Value, AiGatewayErrorView>,
    > {
        match response {
            Response::Json(Ok(value)) => Some(Ok(value)),
            Response::Json(Err(error)) => Some(Err(AiGatewayErrorView::Transport(error@))),
            Response::Refused { status, body } => {
                let text = match body {
                    Some(body) => body@,
                    None => seq![],
                };
                match self.verdict(
                    attempt,
                    status,
                    AiErrorCode::of_field(crate::json::json_text_field(text, "error_code"@)),
                    crate::json::json_text_field(text, "error"@),
                    text,
                ) {
                    Some(e) => Some(Err(e)),
                    None => None,
                }
            },
            Response::Unsent { transient, error } => if attempt < self.max_retries && transient {
                None
            } else {
                Some(Err(AiGatewayErrorView::Transport(error@)))
            },
        }
    }

    /// Judges a refusal, given what its body says of itself: an error, or `None` for
    /// another attempt.
    ///
    /// The gateway is the component that owns provider-level retry/fallback. A 5xx
    /// that carries a gateway-classified `error_code` means the gateway already made
    /// its decision — retrying it is amplification, not resilience. Only 5xx bodies
    /// we can't attribute to the gateway's own classifier are tried again (`Unknown`
    /// — an nginx 502, a crashed process, a proxy hiccup: not the gateway speaking).
    pub fn judge_refusal(
        &self,
        attempt: u32,
        status: u16,
        code: AiErrorCode,
        message: Option<String>,
        body: String,
    ) -> (verdict: Option<AiGatewayError>)
        ensures
            match self.verdict(attempt, status, code, message.deep_view(), body@) {
                Some(error) => verdict matches Some(e) && e@ == error,
                None => verdict is None,
            },
    {
        if status == 429 {
            if attempt < self.max_retries {
                return None;
            }
            return Some(AiGatewayError::RateLimited);
        }
        if status == 503 {
            if code == AiErrorCode::ProviderMisconfigured {
                return Some(
                    AiGatewayError::ProviderMisconfigured(
                        match message {
                            Some(message) => message,
                            None => String::new(),
                        },
                    ),
                );
            }
            return Some(AiGatewayError::NoProvider);
        }
        if status == 504 {
            return Some(AiGatewayError::UpstreamTimeout);
        }
        if status == 422 {
            // The body carries huggian's `raw` (first 1000 chars of
            // what the model actually wrote) — the only place it
            // survives, since neither side persists it.
            return Some(AiGatewayError::InvalidJson);
        }
        if is_server_error(status) && code == AiErrorCode::Unknown && attempt < self.max_retries {
            return None;
        }
        Some(AiGatewayError::Upstream { status, code, body })
    }

    /// Judges the response to an attempt: the call's outcome, or `None` for another
    /// attempt.
    pub fn judge(&self, attempt: u32, response: Response) -> (judged: Option<
        Result<Value, AiGatewayError>,
    >)
        ensures
            match self.judged(attempt, response) {
                Some(result) => judged matches Some(r) && outcome(r) == result,
                None => judged is None && attempt < self.max_retries,
            },
    {
        match response {
            Response::Json(Ok(value)) => Some(Ok(value)),
            Response::Json(Err(error)) => Some(Err(AiGatewayError::Transport(error))),
            Response::Refused { status, body } => {
                let body = match body {
                    Some(body) => body,
                    None => String::new(),
                };
                let code = parse_error_code(body.as_str());
                let message = parse_error_message(body.as_str());
                match self.judge_refusal(attempt, status, code, message, body) {
                    Some(e) => Some(Err(e)),
                    None => None,
                }
            },
            Response::Unsent { transient, error } => {
                if attempt < self.max_retries && transient {
                    return None;
                }
                Some(Err(AiGatewayError::Transport(error)))
            },
        }
    }
}

/// The longest wait after an attempt, in milliseconds: 200 doubled with every
/// attempt, up to five seconds.
pub open spec fn backoff_cap(attempt: u32) -> int {
    let doubled = 200 * vstd::arithmetic::power2::pow2(attempt as nat);
    if doubled < 5_000 {
        doubled as int
    } else {
        5_000
    }
}

/// Calls `rand::Rng::gen_range` on `rand::thread_rng()`: some number up to `cap`,
/// which one is left to chance.
#[verifier::external_body]
fn random_up_to(cap: u64) -> (n: u64)
    ensures
        n <= cap,
{
    rand::thread_rng().gen_range(0..=cap)
}

/// How many milliseconds to wait after an attempt.
///
/// Exponential cap with full jitter. Deterministic backoff synchronizes
/// callers that observed the same outage and creates a retry herd; random
/// delay spreads the next attempts over the whole allowed window.
pub fn backoff(attempt: u32) -> (delay_ms: u64)
    requires
        attempt < 64,
    ensures
        delay_ms <= backoff_cap(attempt),
{
    random_up_to(backoff_cap_ms(attempt))
}

/// The longest wait after an attempt, in milliseconds.
pub fn backoff_cap_ms(attempt: u32) -> (cap_ms: u64)
    requires
        attempt < 64,
    ensures
        cap_ms == backoff_cap(attempt),
{
    proof {
        vstd::bits::lemma_u64_pow2_no_overflow(attempt as nat);
        vstd::bits::lemma_u64_shl_is_mul(1, attempt as u64);
    }
    let factor: u64 = 1u64 << (attempt as u64);
    match 200u64.checked_mul(factor) {
        Some(doubled) => if doubled < 5_000 {
            doubled
        } else {
            5_000
        },
        None => 5_000,
    }
}

// -- client -----------------------------------------------------------------------

/// Where a call goes, and what goes with every attempt.
#[derive(Debug, Clone)]
pub struct AiRequest {
    pub url: String,
    /// Sent as the bearer token.
    pub service_token: String,
    pub timeout: Nanos,
}

/// What a call needs done next.
#[derive(Debug, Clone, Copy, PartialEq, Eq, Structural)]
pub enum Act {
    /// Wait for a slot, for so long at most.
    Acquire { within: Nanos },
    /// Send the request.
    Send,
    /// Wait for as long as [`backoff`] says.
    BackOff { attempt: u32 },
}

/// A call that waits for something.
#[derive(Debug, Clone, Copy, PartialEq, Eq, Structural)]
pub enum Post {
    Queued,
    Sent { attempt: u32 },
    BackingOff { next: u32 },
}

/// What a call waited for.
#[derive(Debug)]
pub enum PostEvent {
    /// Whether a slot was had in time.
    Permit(bool),
    Response(Response),
    Woken,
}

/// How far a call has come.
#[derive(Debug)]
pub enum PostStep {
    Ask { act: Act, then: Post },
    Done(Result<Value, AiGatewayError>),
}

impl Post {
    /// Whether an event is of the kind that the call waits for.
    pub open spec fn awaits(self, event: PostEvent) -> bool {
        match self {
            Post::Queued => event is Permit,
            Post::Sent { .. } => event is Response,
            Post::BackingOff { .. } => event is Woken,
        }
    }
}

impl HuggianAiConfig {
    /// Whether a call goes on as it should with an event: `after` is the breaker
    /// then, and `step` how far the call has come.
    pub open spec fn advances(
        self,
        before: CircuitBreaker,
        post: Post,
        event: PostEvent,
        now: Nanos,
        after: CircuitBreaker,
        step: PostStep,
    ) -> bool {
        match post {
            Post::Queued => if !event->Permit_0 {
                after == before && step == PostStep::Done(Err(AiGatewayError::UpstreamTimeout))
            } else if before.blocks(now) {
                after == before && (step matches PostStep::Done(Err(e)) && e@ == before.refusal())
            } else {
                after == before.admitted() && step == (PostStep::Ask {
                    act: Act::Send,
                    then: Post::Sent { attempt: 0 },
                })
            },
            Post::Sent { attempt } => match self.judged(attempt, event->Response_0) {
                None => after == before && attempt < self.max_retries && step == (PostStep::Ask {
                    act: Act::BackOff { attempt },
                    then: Post::BackingOff { next: (attempt + 1) as u32 },
                }),
                Some(result) => {
                    &&& after == before.settled(
                        match result {
                            Ok(_) => None,
                            Err(e) => Some(e),
                        },
                        now,
                    )
                    &&& step matches PostStep::Done(r)
                    &&& outcome(r) == result
                },
            },
            Post::BackingOff { next } => after == before && step == (PostStep::Ask {
                act: Act::Send,
                then: Post::Sent { attempt: next },
            }),
        }
    }
}

pub struct HuggianAiClient {
    pub cfg: HuggianAiConfig,
    pub breaker: CircuitBreaker,
    /// Shared per-client bulkhead — every call through this instance passes
    /// through this boundary, so no single caller can overwhelm the
    /// upstream independently of the others sharing it.
    pub concurrency: usize,
}

impl HuggianAiClient {
    /// `concurrency`: max in-flight requests through this client, from 1 to 64.
    /// Callers that read it from env keep doing that themselves and pass the
    /// resolved value here — this crate does not read env vars.
    pub fn new(cfg: HuggianAiConfig, concurrency: usize, now: Nanos) -> (client: Self)
        requires
            cfg.breaker_cooldown <= MAX_NANOS,
        ensures
            client.cfg == cfg,
            client.breaker.wf(),
            client.breaker == (CircuitBreaker {
                state: BreakerState {
                    phase: BreakerPhase::Closed,
                    consecutive_failures: 0,
                    open_until: now,
                    last_code: None,
                },
                threshold: cfg.breaker_threshold,
                cooldown: cfg.breaker_cooldown,
            }),
            client.concurrency == if concurrency < 1 {
                1
            } else if concurrency > 64 {
                64
            } else {
                concurrency
            },
    {
        let breaker = CircuitBreaker::new(cfg.breaker_threshold, cfg.breaker_cooldown, now);
        let concurrency: usize = if concurrency < 1 {
            1
        } else if concurrency > 64 {
            64
        } else {
            concurrency
        };
        HuggianAiClient { cfg, breaker, concurrency }
    }

    /// Where a call of the gateway goes. A trailing slash on the base URL — common
    /// config typo — is tolerated.
    fn request(&self, path: &str) -> (request: AiRequest)
        ensures
            request.url@ == crate::text::without_trailing_slashes(self.cfg.base_url@) + path@,
            request.service_token == self.cfg.service_token,
            request.timeout == self.cfg.timeout,
    {
        AiRequest {
            url: trim_end_slashes(self.cfg.base_url.as_str()).to_string().concat(path),
            service_token: self.cfg.service_token.clone(),
            timeout: self.cfg.timeout,
        }
    }

    /// `POST /api/ai/complete`, answered with a [`completion`].
    pub fn complete_with_usage(&self) -> (request: AiRequest)
        ensures
            request.url@ == crate::text::without_trailing_slashes(self.cfg.base_url@)
                + "/api/ai/complete"@,
            request.service_token == self.cfg.service_token,
            request.timeout == self.cfg.timeout,
    {
        self.request("/api/ai/complete")
    }

    /// `POST /api/ai/complete-structured`, answered with a [`structured_completion`].
    pub fn complete_structured_with_usage(&self) -> (request: AiRequest)
        ensures
            request.url@ == crate::text::without_trailing_slashes(self.cfg.base_url@)
                + "/api/ai/complete-structured"@,
            request.service_token == self.cfg.service_token,
            request.timeout == self.cfg.timeout,
    {
        self.request("/api/ai/complete-structured")
    }

    /// Starts a call, which waits for a slot first.
    ///
    /// Waiting for a saturated upstream budget is part of the logical
    /// request deadline. Without this timeout, background callers could
    /// accumulate behind the bulkhead while HTTP callers hold sockets
    /// indefinitely.
    pub fn post_with_retry(&self) -> (step: PostStep)
        ensures
            step == (PostStep::Ask {
                act: Act::Acquire { within: self.cfg.timeout },
                then: Post::Queued,
            }),
    {
        PostStep::Ask { act: Act::Acquire { within: self.cfg.timeout }, then: Post::Queued }
    }

    /// Goes on with a call when what it waited for is there. A call that was let
    /// through and is given up before it is done is to be told with
    /// [`abandon`](Self::abandon).
    pub fn advance(&mut self, post: Post, event: PostEvent, now: Nanos) -> (step: PostStep)
        requires
            old(self).breaker.wf(),
            now <= MAX_NANOS,
            post.awaits(event),
        ensures
            final(self).breaker.wf(),
            final(self).cfg == old(self).cfg,
            final(self).concurrency == old(self).concurrency,
            old(self).cfg.advances(
                old(self).breaker,
                post,
                event,
                now,
                final(self).breaker,
                step,
            ),
    {
        match (post, event) {
            (Post::Queued, PostEvent::Permit(granted)) => {
                if !granted {
                    // Queue saturation is a local capacity signal, not evidence that
                    // the provider is unhealthy; the breaker is asked only after
                    // a slot exists so a local overload cannot trip it.
                    return PostStep::Done(Err(AiGatewayError::UpstreamTimeout));
                }
                match self.breaker.before_call(now) {
                    Ok(()) => PostStep::Ask { act: Act::Send, then: Post::Sent { attempt: 0 } },
                    Err(e) => PostStep::Done(Err(e)),
                }
            },
            (Post::Sent { attempt }, PostEvent::Response(response)) => {
                match self.cfg.judge(attempt, response) {
                    None => PostStep::Ask {
                        act: Act::BackOff { attempt },
                        then: Post::BackingOff { next: attempt + 1 },
                    },
                    Some(result) => {
                        self.breaker.after_call(&result, now);
                        PostStep::Done(result)
                    },
                }
            },
            (Post::BackingOff { next }, _) => PostStep::Ask {
                act: Act::Send,
                then: Post::Sent { attempt: next },
            },
            _ => {
                assert(false);
                PostStep::Done(Err(AiGatewayError::UpstreamTimeout))
            },
        }
    }

    /// Records a call that was let through and never completed: it counts as an
    /// availability failure.
    pub fn abandon(&mut self, now: Nanos)
        requires
            old(self).breaker.wf(),
            now <= MAX_NANOS,
        ensures
            final(self).breaker.wf(),
            final(self).cfg == old(self).cfg,
            final(self).concurrency == old(self).concurrency,
            final(self).breaker == old(self).breaker.failed(AiErrorCode::Unknown, now),
    {
        self.breaker.abandon(now);
    }
}

// -- laws -------------------------------------------------------------------------

/// Every code is read back from its own name.
pub proof fn law_codes_round_trip(code: AiErrorCode)
    ensures
        AiErrorCode::named(code.wire_name()@) == code,
{
    reveal_strlit("no_provider");
    reveal_strlit("provider_misconfigured");
    reveal_strlit("upstream_error");
    reveal_strlit("upstream_timeout");
    reveal_strlit("rate_limit");
    reveal_strlit("invalid_json");
    reveal_strlit("invalid_token");
    reveal_strlit("unknown");
    let name = code.wire_name()@;
    assert(name.len() == 11 || name.len() == 22 || name.len() == 14 || name.len() == 16
        || name.len() == 10 || name.len() == 12 || name.len() == 13 || name.len() == 7);
}

/// A gateway-classified 5xx is never tried again: the gateway already made its
/// decision.
pub proof fn law_gateway_classified_errors_are_final(
    cfg: HuggianAiConfig,
    attempt: u32,
    status: u16,
    code: AiErrorCode,
    message: Option<Seq<char>>,
    body: Seq<char>,
)
    requires
        crate::http::server_error_status(status),
        code != AiErrorCode::Unknown,
    ensures
        cfg.verdict(attempt, status, code, message, body) is Some,
{
}

/// What is tried again, while attempts are left: a rate limit, a 5xx that the gateway
/// did not classify (but for 503 and 504, which are always final), and a timeout or a
/// failure to connect. Nothing else.
pub proof fn law_what_is_tried_again(cfg: HuggianAiConfig, attempt: u32, response: Response)
    ensures
        cfg.judged(attempt, response) is None <==> attempt < cfg.max_retries && match response {
            Response::Json(_) => false,
            Response::Refused { status, body } => status == 429 || {
                &&& crate::http::server_error_status(status)
                &&& status != 503
                &&& status != 504
                &&& AiErrorCode::of_field(
                    crate::json::json_text_field(
                        match body {
                            Some(body) => body@,
                            None => seq![],
                        },
                        "error_code"@,
                    ),
                ) == AiErrorCode::Unknown
            },
            Response::Unsent { transient, .. } => transient,
        },
{
}

/// The wait after an attempt doubles up to its ceiling: it is never shorter than
/// before, and never longer than five seconds.
pub proof fn law_backoff_grows_to_its_ceiling(attempt: u32, later: u32)
    requires
        attempt <= later,
    ensures
        200 <= backoff_cap(attempt) <= backoff_cap(later) <= 5_000,
        attempt >= 5 ==> backoff_cap(attempt) == 5_000,
{
    vstd::arithmetic::power2::lemma2_to64();
    vstd::arithmetic::power2::lemma_pow2_pos(attempt as nat);
    if attempt < later {
        vstd::arithmetic::power2::lemma_pow2_strictly_increases(attempt as nat, later as nat);
    }
    if attempt > 5 {
        vstd::arithmetic::power2::lemma_pow2_strictly_increases(5, attempt as nat);
    }
}

/// One turn of a call: what it waited for, when that came, the breaker before and
/// after, and how far the call has come.
pub struct PostTurn {
    pub event: PostEvent,
    pub now: Nanos,
    pub before: CircuitBreaker,
    pub after: CircuitBreaker,
    pub step: PostStep,
}

/// What a call waits for after some turns.
pub open spec fn waiting(turns: Seq<PostTurn>) -> Option<Post> {
    if turns.len() == 0 {
        Some(Post::Queued)
    } else {
        match turns.last().step {
            PostStep::Ask { then, .. } => Some(then),
            PostStep::Done(_) => None,
        }
    }
}

/// Whether the turns are those of a call from its start. The breaker may change
/// between two turns: other calls share it.
pub open spec fn posts(cfg: HuggianAiConfig, turns: Seq<PostTurn>) -> bool
    decreases turns.len(),
{
    turns.len() == 0 || {
        let turn = turns.last();
        &&& posts(cfg, turns.drop_last())
        &&& waiting(turns.drop_last()) matches Some(post)
        &&& post.awaits(turn.event)
        &&& cfg.advances(turn.before, post, turn.event, turn.now, turn.after, turn.step)
    }
}

/// How many requests were sent in the turns.
pub open spec fn requests_sent(turns: Seq<PostTurn>) -> nat
    decreases turns.len(),
{
    if turns.len() == 0 {
        0
    } else {
        requests_sent(turns.drop_last()) + if turns.last().step matches PostStep::Ask {
            act: Act::Send,
            ..
        } {
            1nat
        } else {
            0nat
        }
    }
}

/// One call makes at most one request more than it may retry.
pub proof fn law_requests_are_bounded(cfg: HuggianAiConfig, turns: Seq<PostTurn>)
    requires
        posts(cfg, turns),
    ensures
        requests_sent(turns) <= cfg.max_retries + 1,
        match waiting(turns) {
            Some(Post::Queued) => requests_sent(turns) == 0,
            Some(Post::Sent { attempt }) => requests_sent(turns) == attempt + 1 && attempt
                <= cfg.max_retries,
            Some(Post::BackingOff { next }) => requests_sent(turns) == next && next
                <= cfg.max_retries,
            None => true,
        },
    decreases turns.len(),
{
    if turns.len() > 0 {
        law_requests_are_bounded(cfg, turns.drop_last());
    }
}

/// A call that finds no slot or that the breaker turns away makes no request, and
/// leaves the breaker as it is.
pub proof fn law_refused_calls_make_no_request(
    cfg: HuggianAiConfig,
    before: CircuitBreaker,
    granted: bool,
    now: Nanos,
    after: CircuitBreaker,
    step: PostStep,
)
    requires
        cfg.advances(before, Post::Queued, PostEvent::Permit(granted), now, after, step),
        !granted || before.blocks(now),
    ensures
        after == before,
        step matches PostStep::Done(Err(e)) && e@ == if granted {
            before.refusal()
        } else {
            AiGatewayErrorView::UpstreamTimeout
        },
{
}

/// Client errors and unusable bodies never trip the breaker: whatever does not mean
/// that the provider is down leaves a closed breaker as it is, and opens none.
pub proof fn law_client_errors_never_trip(breaker: CircuitBreaker, e: AiGatewayErrorView, now: Nanos)
    requires
        !e.is_availability_failure(),
    ensures
        breaker.state.phase == BreakerPhase::Closed ==> breaker.settled(Some(e), now) == breaker,
        breaker.state.phase != BreakerPhase::Open ==> breaker.settled(Some(e), now).state.phase
            == BreakerPhase::Closed,
{
}

/// A success closes the breaker and forgets every failure.
pub proof fn law_success_closes(breaker: CircuitBreaker, now: Nanos, later: Nanos)
    ensures
        breaker.settled(None, now).state.phase == BreakerPhase::Closed,
        breaker.settled(None, now).state.consecutive_failures == 0,
        !breaker.settled(None, now).blocks(later),
{
}

/// Exactly one probe: once a call is let through an open breaker, every other call is
/// turned away, whenever it comes, until the probe is settled.
pub proof fn law_one_probe_at_a_time(breaker: CircuitBreaker, now: Nanos, later: Nanos)
    requires
        breaker.state.phase == BreakerPhase::Open,
        !breaker.blocks(now),
    ensures
        breaker.admitted().blocks(later),
        breaker.admitted().refusal() == breaker.refusal(),
{
}

/// A probe that fails, or is abandoned, opens the breaker for a fresh cooldown, after
/// which a call is let through again: no probe can wedge the breaker.
pub proof fn law_failed_probe_recovers(
    breaker: CircuitBreaker,
    code: AiErrorCode,
    now: Nanos,
    later: Nanos,
)
    requires
        breaker.wf(),
        now <= MAX_NANOS,
        breaker.state.phase == BreakerPhase::HalfOpen,
    ensures
        breaker.failed(code, now).state.phase == BreakerPhase::Open,
        breaker.failed(code, now).blocks(later) <==> later < now + breaker.cooldown,
        breaker.failed(code, now).refusal() == (AiGatewayErrorView::CircuitOpen { last: code }),
{
}

/// Calls that were let through before the breaker opened, and fail after it did,
/// leave it open, do not extend its cooldown and do not change the code it replays.
pub proof fn law_stragglers_do_not_extend_the_cooldown(
    breaker: CircuitBreaker,
    e: AiGatewayErrorView,
    now: Nanos,
)
    requires
        breaker.state.phase == BreakerPhase::Open,
    ensures
        breaker.settled(Some(e), now).state.phase == BreakerPhase::Open,
        breaker.settled(Some(e), now).state.open_until == breaker.state.open_until,
        breaker.settled(Some(e), now).refusal() == breaker.refusal(),
{
}

/// The breaker after availability failures in a row.
pub open spec fn failed_in_a_row(breaker: CircuitBreaker, codes: Seq<AiErrorCode>, now: Nanos) -> CircuitBreaker
    decreases codes.len(),
{
    if codes.len() == 0 {
        breaker
    } else {
        failed_in_a_row(breaker, codes.drop_last(), now).failed(codes.last(), now)
    }
}

/// The breaker opens at its threshold and not before: a closed breaker with nothing
/// counted is open after some availability failures in a row exactly when they are as
/// many as the threshold says, one at least. It then replays the code of the one that
/// opened it.
pub proof fn law_threshold_opens(breaker: CircuitBreaker, codes: Seq<AiErrorCode>, now: Nanos)
    requires
        breaker.wf(),
        now <= MAX_NANOS,
        breaker.state.phase == BreakerPhase::Closed,
        breaker.state.consecutive_failures == 0,
        codes.len() <= u32::MAX,
    ensures
        ({
            let after = failed_in_a_row(breaker, codes, now);
            &&& after.threshold == breaker.threshold
            &&& after.cooldown == breaker.cooldown
            &&& after.state.consecutive_failures == codes.len()
            &&& after.state.phase == if codes.len() < breaker.limit() {
                BreakerPhase::Closed
            } else {
                BreakerPhase::Open
            }
            &&& codes.len() > 0 ==> after.refusal() == (AiGatewayErrorView::CircuitOpen {
                last: if codes.len() <= breaker.limit() {
                    codes.last()
                } else {
                    codes[breaker.limit() - 1]
                },
            })
        }),
    decreases codes.len(),
{
    if codes.len() > 0 {
        law_threshold_opens(breaker, codes.drop_last(), now);
    }
}

/// One call of a batch against a provider that is down: the code it fails with, and
/// when.
pub struct FailingCall {
    pub code: AiErrorCode,
    pub now: Nanos,
}

/// The breaker after a batch of calls against a provider that is down, and how many of
/// them were let through.
pub open spec fn after_batch(breaker: CircuitBreaker, calls: Seq<FailingCall>) -> (CircuitBreaker, nat)
    decreases calls.len(),
{
    if calls.len() == 0 {
        (breaker, 0)
    } else {
        let (reached, admitted) = after_batch(breaker, calls.drop_last());
        let call = calls.last();
        if reached.blocks(call.now) {
            (reached, admitted)
        } else {
            (reached.admitted().failed(call.code, call.now), admitted + 1)
        }
    }
}

/// The damage of a provider that is down stays bounded: of a batch of calls that all
/// fall within one cooldown, only as many reach the network as open the breaker.
pub proof fn law_batches_do_not_amplify(
    breaker: CircuitBreaker,
    calls: Seq<FailingCall>,
    start: Nanos,
)
    requires
        breaker.wf(),
        breaker.state.phase == BreakerPhase::Closed,
        breaker.state.consecutive_failures == 0,
        start <= MAX_NANOS,
        forall|i: int|
            0 <= i < calls.len() ==> start <= (#[trigger] calls[i]).now <= MAX_NANOS && calls[i].now
                < start + breaker.cooldown,
    ensures
        after_batch(breaker, calls).1 == if calls.len() < breaker.limit() {
            calls.len() as int
        } else {
            breaker.limit()
        },
        ({
            let (reached, admitted) = after_batch(breaker, calls);
            &&& reached.wf()
            &&& reached.threshold == breaker.threshold
            &&& reached.cooldown == breaker.cooldown
            &&& admitted == reached.state.consecutive_failures
            &&& if admitted < breaker.limit() {
                reached.state.phase == BreakerPhase::Closed
            } else {
                reached.state.phase == BreakerPhase::Open && reached.state.open_until >= start
                    + breaker.cooldown
            }
        }),
    decreases calls.len(),
{
    if calls.len() > 0 {
        let before = calls.drop_last();
        assert forall|i: int| 0 <= i < before.len() implies start <= (
        #[trigger] before[i]).now <= MAX_NANOS && before[i].now < start + breaker.cooldown by {
            assert(before[i] == calls[i]);
        }
        law_batches_do_not_amplify(breaker, before, start);
        assert(calls[calls.len() - 1] == calls.last());
    }
}

/// Every code has its own name, and every other text is `Unknown`.
pub proof fn law_names_of_codes(name: Seq<char>)
    ensures
        AiErrorCode::named(name) == AiErrorCode::NoProvider <==> name == "no_provider"@,
        AiErrorCode::named(name) == AiErrorCode::ProviderMisconfigured <==> name
            == "provider_misconfigured"@,
        AiErrorCode::named(name) == AiErrorCode::UpstreamError <==> name == "upstream_error"@,
        AiErrorCode::named(name) == AiErrorCode::UpstreamTimeout <==> name == "upstream_timeout"@,
        AiErrorCode::named(name) == AiErrorCode::RateLimit <==> name == "rate_limit"@,
        AiErrorCode::named(name) == AiErrorCode::InvalidJson <==> name == "invalid_json"@,
        AiErrorCode::named(name) == AiErrorCode::InvalidToken <==> name == "invalid_token"@,
        AiErrorCode::Unknown.wire_name() == "unknown",
{
    law_codes_round_trip(AiErrorCode::NoProvider);
    law_codes_round_trip(AiErrorCode::ProviderMisconfigured);
    law_codes_round_trip(AiErrorCode::UpstreamError);
    law_codes_round_trip(AiErrorCode::UpstreamTimeout);
    law_codes_round_trip(AiErrorCode::RateLimit);
    law_codes_round_trip(AiErrorCode::InvalidJson);
    law_codes_round_trip(AiErrorCode::InvalidToken);
}

/// An error's code tells its variant; an upstream error and a refusal by the breaker
/// pass on the code they carry.
pub proof fn law_codes_of_errors(e: AiGatewayError)
    ensures
        e is NoProvider ==> e@.code() == AiErrorCode::NoProvider,
        e is ProviderMisconfigured ==> e@.code() == AiErrorCode::ProviderMisconfigured,
        e is RateLimited ==> e@.code() == AiErrorCode::RateLimit,
        e is UpstreamTimeout ==> e@.code() == AiErrorCode::UpstreamTimeout,
        e is InvalidJson ==> e@.code() == AiErrorCode::InvalidJson,
        e matches AiGatewayError::Upstream { code, .. } ==> e@.code() == code,
        e matches AiGatewayError::CircuitOpen { last } ==> e@.code() == last,
        e is Transport || e is Deserialization ==> e@.code() == AiErrorCode::Unknown,
{
}

/// An error in words ends with all that it was told.
pub proof fn law_messages_tell_everything(e: AiGatewayError)
    ensures
        e is NoProvider ==> e@.message() == "no provider available (503)"@,
        e is RateLimited ==> e@.message() == "rate limited (429)"@,
        e is UpstreamTimeout ==> e@.message() == "upstream timeout (504)"@,
        e is InvalidJson ==> e@.message() == "invalid json from provider (422)"@,
        e matches AiGatewayError::ProviderMisconfigured(why) ==> e@.message()
            == "provider misconfigured (503): "@ + why@,
        e matches AiGatewayError::Transport(why) ==> e@.message() == "transport: "@ + why@,
        e matches AiGatewayError::Deserialization(why) ==> e@.message() == "deserialization: "@
            + why@,
        e matches AiGatewayError::Upstream { status, code, body } ==> e@.message()
            == "upstream error "@ + crate::text::decimal(status as nat) + " ["@ + code.wire_name()@
            + "]: "@ + body@,
        e matches AiGatewayError::CircuitOpen { last } ==> e@.message()
            == "ai gateway circuit breaker open (last upstream failure: "@ + last.wire_name()@
            + ") — call not attempted"@,
{
}

/// The usage that is handed on is the one that came, token for token; none is made up.
pub proof fn law_usage_is_handed_on(wire: UsageWire)
    ensures
        usage_of(Some(wire)) matches Some(usage) && usage.input_tokens == wire.input_tokens
            && usage.output_tokens == wire.output_tokens,
        usage_of(None) is None,
{
}

/// A 2xx ends a call with its very body, on whichever attempt it comes; one whose body
/// is no JSON ends it with the reason.
pub proof fn law_success_is_returned(
    cfg: HuggianAiConfig,
    attempt: u32,
    value: Value,
    error: String,
)
    ensures
        cfg.judged(attempt, Response::Json(Ok(value))) == Some(
            Ok::<Value, AiGatewayErrorView>(value),
        ),
        cfg.judged(attempt, Response::Json(Err(error))) == Some(
            Err::<Value, _>(AiGatewayErrorView::Transport(error@)),
        ),
{
}

/// A call whose last response was a 2xx is done with that body, however many attempts it
/// took, and leaves the breaker closed with nothing counted.
pub proof fn law_call_ends_with_its_success(cfg: HuggianAiConfig, turns: Seq<PostTurn>, value: Value)
    requires
        posts(cfg, turns),
        turns.len() > 0,
        turns.last().event == PostEvent::Response(Response::Json(Ok(value))),
    ensures
        turns.last().step == PostStep::Done(Ok(value)),
        turns.last().after.state.phase == BreakerPhase::Closed,
        turns.last().after.state.consecutive_failures == 0,
        turns.last().after.state.last_code is None,
        forall|later: Nanos| !(#[trigger] turns.last().after.blocks(later)),
{
}

/// What ends a call that was refused for good is told by the status: 429, 503, 504 and
/// 422 each by an error of their own, any other by itself with its code and body.
pub proof fn law_status_tells_the_error(
    cfg: HuggianAiConfig,
    attempt: u32,
    status: u16,
    body: String,
)
    requires
        cfg.judged(attempt, Response::Refused { status, body: Some(body) }) is Some,
    ensures
        ({
            let name = crate::json::json_text_field(body@, "error_code"@);
            &&& cfg.judged(attempt, Response::Refused { status, body: Some(body) })->0 matches Err(e)
            &&& e is RateLimited <==> status == 429
            &&& e is UpstreamTimeout <==> status == 504
            &&& e is InvalidJson <==> status == 422
            &&& e is NoProvider <==> status == 503 && name != Some("provider_misconfigured"@)
            &&& e is ProviderMisconfigured <==> status == 503 && name == Some(
                "provider_misconfigured"@,
            )
            &&& e matches AiGatewayErrorView::ProviderMisconfigured(why) ==> why
                == match crate::json::json_text_field(body@, "error"@) {
                Some(message) => message,
                None => Seq::<char>::empty(),
            }
            &&& e matches AiGatewayErrorView::Upstream { status: told, code, body: text } ==> {
                &&& told == status
                &&& text == body@
                &&& name is None ==> code == AiErrorCode::Unknown
                &&& name is Some ==> code == AiErrorCode::named(name->0)
            }
            &&& !(e is Transport) && !(e is Deserialization) && !(e is CircuitOpen)
        }),
{
    let name = crate::json::json_text_field(body@, "error_code"@);
    if name is Some {
        law_names_of_codes(name->0);
    }
}

/// A refusal is tried again exactly while attempts are left and it is a 429, or a 5xx
/// other than 503 and 504 that names no code of the gateway's. Its body is what tells.
pub proof fn law_refusals_that_are_tried_again(
    cfg: HuggianAiConfig,
    attempt: u32,
    status: u16,
    body: String,
)
    ensures
        cfg.judged(attempt, Response::Refused { status, body: Some(body) }) is None <==> {
            &&& attempt < cfg.max_retries
            &&& status == 429 || {
                let name = crate::json::json_text_field(body@, "error_code"@);
                &&& 500 <= status < 600 && status != 503 && status != 504
                &&& name != Some("no_provider"@)
                &&& name != Some("provider_misconfigured"@)
                &&& name != Some("upstream_error"@)
                &&& name != Some("upstream_timeout"@)
                &&& name != Some("rate_limit"@)
                &&& name != Some("invalid_json"@)
                &&& name != Some("invalid_token"@)
            }
        },
{
    let name = crate::json::json_text_field(body@, "error_code"@);
    if name is Some {
        law_names_of_codes(name->0);
    }
}

/// A request without an answer is tried again exactly while attempts are left and it
/// failed by a timeout or by connecting; otherwise the call ends with the reason.
pub proof fn law_unsent_requests(
    cfg: HuggianAiConfig,
    attempt: u32,
    transient: bool,
    error: String,
)
    ensures
        cfg.judged(attempt, Response::Unsent { transient, error }) is None <==> transient && attempt
            < cfg.max_retries,
        !transient || attempt >= cfg.max_retries ==> cfg.judged(
            attempt,
            Response::Unsent { transient, error },
        ) == Some(Err::<Value, _>(AiGatewayErrorView::Transport(error@))),
{
}

/// Without a body, a refusal is judged as with an empty one.
pub proof fn law_missing_body_counts_as_empty(
    cfg: HuggianAiConfig,
    attempt: u32,
    status: u16,
    empty: String,
)
    requires
        empty@.len() == 0,
    ensures
        cfg.judged(attempt, Response::Refused { status, body: None }) == cfg.judged(
            attempt,
            Response::Refused { status, body: Some(empty) },
        ),
{
    assert(empty@ =~= Seq::<char>::empty());
}

/// What one attempt leads to: a wait and the next attempt, or the end of the call, which
/// is settled with the breaker as it ended. While a call waits, the breaker is left alone.
pub proof fn law_attempts_follow_one_another(
    cfg: HuggianAiConfig,
    before: CircuitBreaker,
    attempt: u32,
    event: PostEvent,
    now: Nanos,
    after: CircuitBreaker,
    step: PostStep,
)
    requires
        event is Response,
        cfg.advances(before, Post::Sent { attempt }, event, now, after, step),
    ensures
        match step {
            PostStep::Ask { act, then } => {
                &&& after == before
                &&& act == (Act::BackOff { attempt })
                &&& then matches Post::BackingOff { next }
                &&& next == attempt + 1
                &&& next <= cfg.max_retries
            },
            PostStep::Done(Ok(_)) => after == before.settled(None, now),
            PostStep::Done(Err(e)) => after == before.settled(Some(e@), now),
        },
        cfg.judged(attempt, event->Response_0) is None <==> step is Ask,
{
}

/// A call starts as it is let through, and starts anew after each wait: a request is sent
/// with the attempt it waited for.
pub proof fn law_requests_are_sent(
    cfg: HuggianAiConfig,
    before: CircuitBreaker,
    post: Post,
    event: PostEvent,
    now: Nanos,
    after: CircuitBreaker,
    step: PostStep,
)
    requires
        post.awaits(event),
        cfg.advances(before, post, event, now, after, step),
        post matches Post::BackingOff { .. } || (post == Post::Queued && event == PostEvent::Permit(
            true,
        ) && !before.blocks(now)),
    ensures
        step matches PostStep::Ask { act, then } && act == Act::Send && then == (Post::Sent {
            attempt: match post {
                Post::BackingOff { next } => next,
                _ => 0,
            },
        }),
        post is BackingOff ==> after == before,
        after.state.consecutive_failures == before.state.consecutive_failures,
        after.state.open_until == before.state.open_until,
        after.state.last_code == before.state.last_code,
{
}

/// When a call is turned away: never by a closed breaker, always by one whose probe is
/// out, and by an open one exactly until its cooldown is over.
pub proof fn law_when_calls_are_turned_away(breaker: CircuitBreaker, now: Nanos)
    ensures
        breaker.state.phase == BreakerPhase::Closed ==> !breaker.blocks(now),
        breaker.state.phase == BreakerPhase::HalfOpen ==> breaker.blocks(now),
        breaker.state.phase == BreakerPhase::Open ==> (breaker.blocks(now) <==> now
            < breaker.state.open_until),
        breaker.state.phase == BreakerPhase::Closed ==> breaker.admitted() == breaker,
        breaker.state.phase == BreakerPhase::Open ==> breaker.admitted().state.phase
            == BreakerPhase::HalfOpen,
        breaker.state.last_code matches Some(code) ==> breaker.refusal()
            == (AiGatewayErrorView::CircuitOpen { last: code }),
{
}

/// Which failures count: each of these adds one to the streak and opens a breaker that is
/// half open, or whose streak has reached its threshold. An open one stays open.
pub proof fn law_outages_count(breaker: CircuitBreaker, e: AiGatewayError, now: Nanos)
    requires
        breaker.wf(),
        now <= MAX_NANOS,
        breaker.state.consecutive_failures < u32::MAX,
        e is RateLimited || e is UpstreamTimeout || e is NoProvider || e is ProviderMisconfigured
            || e is Transport || (e matches AiGatewayError::Upstream { status, .. } && 500 <= status
            <= 599),
    ensures
        ({
            let after = breaker.settled(Some(e@), now);
            let count = breaker.state.consecutive_failures + 1;
            &&& after.state.consecutive_failures == count
            &&& after.threshold == breaker.threshold
            &&& after.cooldown == breaker.cooldown
            &&& after.state.phase == BreakerPhase::Open <==> count >= breaker.threshold
                || breaker.state.phase != BreakerPhase::Closed
            &&& after.state.phase != BreakerPhase::HalfOpen
            &&& after.state.phase == BreakerPhase::Open && breaker.state.phase != BreakerPhase::Open
                ==> after.state.open_until == now + breaker.cooldown && after.refusal()
                == (AiGatewayErrorView::CircuitOpen { last: e@.code() })
        }),
{
}

/// Which failures do not count: each of these leaves the streak as it is, or ends it where
/// it answered a probe, and opens nothing.
pub proof fn law_answers_do_not_count(breaker: CircuitBreaker, e: AiGatewayError, now: Nanos)
    requires
        e is InvalidJson || e is Deserialization || e is CircuitOpen || (
        e matches AiGatewayError::Upstream { status, .. } && !(500 <= status <= 599)),
    ensures
        breaker.state.phase != BreakerPhase::HalfOpen ==> breaker.settled(Some(e@), now) == breaker,
        breaker.state.phase == BreakerPhase::HalfOpen ==> {
            let after = breaker.settled(Some(e@), now);
            &&& after.state.phase == BreakerPhase::Closed
            &&& after.state.consecutive_failures == 0
            &&& after.state.last_code is None
            &&& after.threshold == breaker.threshold
            &&& after.cooldown == breaker.cooldown
        },
{
}

/// Calls that one after the other end with a 503 open the breaker exactly when they are as
/// many as the threshold says, one at least, whatever their bodies say.
pub proof fn law_unavailable_answers_open(
    cfg: HuggianAiConfig,
    breakers: Seq<CircuitBreaker>,
    attempts: Seq<u32>,
    bodies: Seq<Option<String>>,
    steps: Seq<PostStep>,
    now: Nanos,
    n: int,
)
    requires
        0 <= n < u32::MAX,
        breakers.len() == n + 1,
        attempts.len() == n,
        bodies.len() == n,
        steps.len() == n,
        breakers[0].wf(),
        breakers[0].state.phase == BreakerPhase::Closed,
        breakers[0].state.consecutive_failures == 0,
        now <= MAX_NANOS,
        forall|i: int|
            0 <= i < n ==> cfg.advances(
                breakers[i],
                Post::Sent { attempt: attempts[i] },
                PostEvent::Response(Response::Refused { status: 503, body: bodies[i] }),
                now,
                #[trigger] breakers[i + 1],
                steps[i],
            ),
    ensures
        breakers[n].wf(),
        breakers[n].threshold == breakers[0].threshold,
        breakers[n].state.consecutive_failures == n,
        breakers[n].state.phase == BreakerPhase::Open <==> n >= breakers[0].threshold && n >= 1,
        breakers[n].state.phase != BreakerPhase::HalfOpen,
        forall|i: int|
            0 <= i < n ==> (#[trigger] steps[i] matches PostStep::Done(Err(e)) && (
            e is NoProvider || e is ProviderMisconfigured)),
    decreases n,
{
    if n > 0 {
        assert(breakers[n - 1 + 1] == breakers[n]);
        let (b, a, t, s) = (
            breakers.drop_last(),
            attempts.drop_last(),
            bodies.drop_last(),
            steps.drop_last(),
        );
        assert forall|i: int| 0 <= i < n - 1 implies cfg.advances(
            b[i],
            Post::Sent { attempt: a[i] },
            PostEvent::Response(Response::Refused { status: 503, body: t[i] }),
            now,
            #[trigger] b[i + 1],
            s[i],
        ) by {
            assert(b[i + 1] == breakers[i + 1]);
        }
        law_unavailable_answers_open(cfg, b, a, t, s, now, n - 1);
        assert forall|i: int| 0 <= i < n implies (#[trigger] steps[i] matches PostStep::Done(
            Err(e),
        ) && (e is NoProvider || e is ProviderMisconfigured)) by {
            if i < n - 1 {
                assert(s[i] == steps[i]);
            }
        }
    }
}

/// The wait starts at 200 milliseconds and doubles, up to five seconds.
pub proof fn law_backoff_doubles(attempt: u32)
    requires
        attempt < u32::MAX,
    ensures
        backoff_cap(0) == 200,
        backoff_cap((attempt + 1) as u32) == if 2 * backoff_cap(attempt) < 5_000 {
            2 * backoff_cap(attempt)
        } else {
            5_000
        },
{
    vstd::arithmetic::power2::lemma2_to64();
    vstd::arithmetic::power2::lemma_pow2_unfold((attempt + 1) as nat);
}

/// A completion hands on the text or the data that came, and the usage token for token; an
/// answer of another shape is an error that carries the reason.
pub proof fn law_completions_hand_on_the_answer(
    answer: Result<CompleteResponse, String>,
    text: Result<Completion, AiGatewayError>,
    structured: Result<StructuredResponse, String>,
    data: Result<StructuredCompletion, AiGatewayError>,
)
    requires
        call_ensures(completion, (answer,), text),
        call_ensures(structured_completion, (structured,), data),
    ensures
        answer matches Ok(sent) ==> (text matches Ok(got) && {
            &&& got.text@ == sent.text@
            &&& got.usage is Some <==> sent.usage is Some
            &&& sent.usage matches Some(wire) ==> got.usage->0.input_tokens == wire.input_tokens
                && got.usage->0.output_tokens == wire.output_tokens
        }),
        answer matches Err(why) ==> text == Err::<Completion, _>(
            AiGatewayError::Deserialization(why),
        ),
        structured matches Ok(sent) ==> (data matches Ok(got) && {
            &&& got.data == sent.data
            &&& got.usage is Some <==> sent.usage is Some
            &&& sent.usage matches Some(wire) ==> got.usage->0.input_tokens == wire.input_tokens
                && got.usage->0.output_tokens == wire.output_tokens
        }),
        structured matches Err(why) ==> data == Err::<StructuredCompletion, _>(
            AiGatewayError::Deserialization(why),
        ),
{
}

/// A new client lets calls through at once, takes its limits as configured, and never holds
/// fewer than one or more than 64 requests in flight; in between it holds as many as asked.
pub proof fn law_new_clients_are_open_for_calls(
    cfg: HuggianAiConfig,
    concurrency: usize,
    now: Nanos,
    client: HuggianAiClient,
    later: Nanos,
)
    requires
        call_ensures(HuggianAiClient::new, (cfg, concurrency, now), client),
    ensures
        client.cfg == cfg,
        client.breaker.state.phase == BreakerPhase::Closed,
        client.breaker.state.consecutive_failures == 0,
        !client.breaker.blocks(later),
        client.breaker.threshold == cfg.breaker_threshold,
        client.breaker.cooldown == cfg.breaker_cooldown,
        1 <= client.concurrency <= 64,
        1 <= concurrency <= 64 ==> client.concurrency == concurrency,
        concurrency == 0 ==> client.concurrency == 1,
        concurrency > 64 ==> client.concurrency == 64,
{
}

/// Either kind of completion is asked for below the base URL, of which only trailing slashes
/// are dropped, with the service token and the configured timeout; a slot is waited for no
/// longer than that.
pub proof fn law_where_completions_are_asked_for(
    client: &HuggianAiClient,
    text: AiRequest,
    structured: AiRequest,
    start: PostStep,
)
    requires
        call_ensures(HuggianAiClient::complete_with_usage, (client,), text),
        call_ensures(HuggianAiClient::complete_structured_with_usage, (client,), structured),
        call_ensures(HuggianAiClient::post_with_retry, (client,), start),
    ensures
        text.url@ == crate::text::without_trailing_slashes(client.cfg.base_url@)
            + "/api/ai/complete"@,
        structured.url@ == crate::text::without_trailing_slashes(client.cfg.base_url@)
            + "/api/ai/complete-structured"@,
        text.service_token@ == client.cfg.service_token@,
        structured.service_token@ == client.cfg.service_token@,
        text.timeout == client.cfg.timeout,
        structured.timeout == client.cfg.timeout,
        start == (PostStep::Ask {
            act: Act::Acquire { within: client.cfg.timeout },
            then: Post::Queued,
        }),
{
}

/// The wait after an attempt never exceeds 200 milliseconds doubled with every attempt, nor
/// five seconds.
pub proof fn law_waits_are_bounded(attempt: u32, delay_ms: u64, cap_ms: u64)
    requires
        call_ensures(backoff, (attempt,), delay_ms),
        call_ensures(backoff_cap_ms, (attempt,), cap_ms),
    ensures
        delay_ms <= 5_000,
        delay_ms <= 200 * vstd::arithmetic::power2::pow2(attempt as nat),
        cap_ms <= 5_000,
        cap_ms == 5_000 || cap_ms == 200 * vstd::arithmetic::power2::pow2(attempt as nat),
        cap_ms == 5_000 ==> 200 * vstd::arithmetic::power2::pow2(attempt as nat) >= 5_000,
{
}

/// A call that was let through and never completed counts as an outage: it adds to the
/// streak, and it opens the breaker for its cooldown where the streak is long enough or the
/// call was the probe. Nothing else of the client changes.
pub proof fn law_abandoned_calls_count(client: &mut HuggianAiClient, now: Nanos)
    requires
        old(client).breaker.wf(),
        now <= MAX_NANOS,
        call_ensures(HuggianAiClient::abandon, (client, now), ()),
    ensures
        ({
            let before = old(client).breaker;
            let after = final(client).breaker;
            &&& before.state.consecutive_failures < u32::MAX ==> after.state.consecutive_failures
                == before.state.consecutive_failures + 1
            &&& before.state.phase == BreakerPhase::Closed && before.state.consecutive_failures + 1
                < before.threshold ==> after.state.phase == BreakerPhase::Closed
            &&& before.state.phase == BreakerPhase::HalfOpen || (before.state.phase
                == BreakerPhase::Closed && before.state.consecutive_failures + 1
                >= before.threshold) ==> after.state.phase == BreakerPhase::Open
                && after.state.open_until == now + before.cooldown && after.state.last_code == Some(
                AiErrorCode::Unknown,
            )
            &&& before.state.phase == BreakerPhase::Open ==> after.state.open_until
                == before.state.open_until && after.state.last_code == before.state.last_code
            &&& after.threshold == before.threshold && after.cooldown == before.cooldown
        }),
        final(client).cfg == old(client).cfg,
        final(client).concurrency == old(client).concurrency,
{
}

/// Through a closed breaker every call goes, and through an open one after its cooldown, as
/// the one probe; all others are turned away with the code that opened it, and change
/// nothing.
pub proof fn law_who_is_let_through(
    breaker: &mut CircuitBreaker,
    now: Nanos,
    admission: Result<(), AiGatewayError>,
)
    requires
        old(breaker).wf(),
        call_ensures(CircuitBreaker::before_call, (breaker, now), admission),
    ensures
        old(breaker).state.phase == BreakerPhase::Closed ==> admission is Ok && *final(breaker)
            == *old(breaker),
        old(breaker).state.phase == BreakerPhase::Open && old(breaker).state.open_until <= now
            ==> admission is Ok && final(breaker).state.phase == BreakerPhase::HalfOpen,
        old(breaker).state.phase == BreakerPhase::HalfOpen || (old(breaker).state.phase
            == BreakerPhase::Open && now < old(breaker).state.open_until) ==> {
            &&& admission matches Err(AiGatewayError::CircuitOpen { last })
            &&& old(breaker).state.last_code == Some(last)
            &&& *final(breaker) == *old(breaker)
        },
{
}

/// A success closes the breaker and clears its streak; an answer that could not be used
/// closes it only where it answered the probe, and counts for nothing.
pub proof fn law_how_calls_settle(
    breaker: &mut CircuitBreaker,
    result: &Result<Value, AiGatewayError>,
    now: Nanos,
)
    requires
        call_ensures(CircuitBreaker::after_call, (breaker, result, now), ()),
    ensures
        *result is Ok || (old(breaker).state.phase == BreakerPhase::HalfOpen && (*result matches Err(
            e,
        ) && (e is InvalidJson || e is Deserialization))) ==> {
            &&& final(breaker).state.phase == BreakerPhase::Closed
            &&& final(breaker).state.consecutive_failures == 0
            &&& final(breaker).state.last_code is None
        },
        (*result matches Err(e) && (e is InvalidJson || e is Deserialization || e is CircuitOpen))
            && old(breaker).state.phase != BreakerPhase::HalfOpen ==> *final(breaker) == *old(breaker),
        final(breaker).threshold == old(breaker).threshold,
        final(breaker).cooldown == old(breaker).cooldown,
{
}

/// A step of a call changes nothing of the client but its breaker, and ends the call with a
/// success wherever one came.
pub proof fn law_steps_of_a_call(
    client: &mut HuggianAiClient,
    attempt: u32,
    value: Value,
    now: Nanos,
    step: PostStep,
)
    requires
        call_ensures(
            HuggianAiClient::advance,
            (client, Post::Sent { attempt }, PostEvent::Response(Response::Json(Ok(value))), now),
            step,
        ),
    ensures
        step == PostStep::Done(Ok(value)),
        final(client).breaker.state.phase == BreakerPhase::Closed,
        final(client).breaker.state.consecutive_failures == 0,
        final(client).cfg == old(client).cfg,
        final(client).concurrency == old(client).concurrency,
{
}

} // verus!
