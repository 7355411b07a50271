use huggian_client::ai_gateway::{
    backoff, backoff_cap_ms, completion, is_availability_failure, parse_error_code,
    parse_error_message, structured_completion, Act, AiErrorCode, AiGatewayError, BreakerPhase,
    CircuitBreaker, CompleteResponse, HuggianAiClient, HuggianAiConfig, Post, PostEvent, PostStep,
    Response, StructuredResponse, Usage, UsageWire, MAX_NANOS,
};
use huggian_client::time::Nanos;
use serde_json::Value;

const SEC: Nanos = 1_000_000_000;
const MS: Nanos = 1_000_000;

fn base_cfg() -> HuggianAiConfig {
    HuggianAiConfig {
        base_url: "http://gateway.test".to_string(),
        service_token: "test-token".to_string(),
        timeout: 5 * SEC,
        max_retries: 3,
        breaker_threshold: 5,
        breaker_cooldown: 30 * SEC,
    }
}

fn client(cfg: HuggianAiConfig) -> HuggianAiClient {
    HuggianAiClient::new(cfg, 8, 0)
}

/// Makes one call against a gateway that answers every request with `answer`, and
/// counts the requests.
fn complete(
    ai: &mut HuggianAiClient,
    now: Nanos,
    requests: &mut usize,
    mut answer: impl FnMut() -> Response,
) -> Result<Value, AiGatewayError> {
    let mut step = ai.post_with_retry();
    loop {
        let (act, then) = match step {
            PostStep::Ask { act, then } => (act, then),
            PostStep::Done(result) => return result,
        };
        let event = match act {
            Act::Acquire { within } => {
                assert_eq!(within, ai.cfg.timeout);
                PostEvent::Permit(true)
            }
            Act::Send => {
                *requests += 1;
                PostEvent::Response(answer())
            }
            Act::BackOff { attempt } => {
                assert!(backoff(attempt) <= backoff_cap_ms(attempt));
                PostEvent::Woken
            }
        };
        step = ai.advance(then, event, now);
    }
}

fn refused(status: u16, body: &str) -> Response {
    Response::Refused { status, body: Some(body.to_string()) }
}

const UPSTREAM_ERROR: &str = "{\"error_code\":\"upstream_error\"}";

// --- Retry matrix ---------------------------------------------------

#[test]
fn rate_limit_429_retries_up_to_max_then_fails() {
    let mut ai = client(HuggianAiConfig { max_retries: 2, ..base_cfg() });
    let mut requests = 0;
    let err = complete(&mut ai, 0, &mut requests, || refused(429, "")).unwrap_err();
    assert!(matches!(err, AiGatewayError::RateLimited));
    assert_eq!(requests, 3, "1 initial + 2 retries");
}

#[test]
fn transport_timeout_retries_then_fails() {
    let mut ai =
        client(HuggianAiConfig { timeout: 300 * MS, max_retries: 1, ..base_cfg() });
    let mut requests = 0;
    let err = complete(&mut ai, 0, &mut requests, || Response::Unsent {
        transient: true,
        error: "timed out".into(),
    })
    .unwrap_err();
    assert!(matches!(err, AiGatewayError::Transport(_)));
    assert_eq!(requests, 2, "1 initial + 1 retry");
}

#[test]
fn gateway_classified_502_upstream_error_returns_immediately_no_retry() {
    let mut ai = client(HuggianAiConfig { max_retries: 3, ..base_cfg() });
    let mut requests = 0;
    let err = complete(&mut ai, 0, &mut requests, || {
        refused(502, "{\"error_code\": \"upstream_error\", \"error\": \"boom\"}")
    })
    .unwrap_err();
    assert!(matches!(
        err,
        AiGatewayError::Upstream { status: 502, code: AiErrorCode::UpstreamError, .. }
    ));
    assert_eq!(requests, 1, "the gateway already classified this — retrying it IS the incident");
}

#[test]
fn unparseable_502_body_still_retries() {
    let mut ai = client(HuggianAiConfig { max_retries: 2, ..base_cfg() });
    let mut requests = 0;
    let err =
        complete(&mut ai, 0, &mut requests, || refused(502, "<html>bad gateway</html>")).unwrap_err();
    assert!(matches!(err, AiGatewayError::Upstream { code: AiErrorCode::Unknown, .. }));
    assert_eq!(
        requests, 3,
        "no gateway classification found in the body -> old retry behaviour preserved"
    );
}

#[test]
fn no_provider_503_returns_immediately() {
    let mut ai = client(HuggianAiConfig { max_retries: 3, ..base_cfg() });
    let mut requests = 0;
    let err = complete(&mut ai, 0, &mut requests, || refused(503, "")).unwrap_err();
    assert!(matches!(err, AiGatewayError::NoProvider));
    assert_eq!(requests, 1);
}

#[test]
fn upstream_timeout_504_returns_immediately() {
    let mut ai = client(HuggianAiConfig { max_retries: 3, ..base_cfg() });
    let mut requests = 0;
    let err = complete(&mut ai, 0, &mut requests, || refused(504, "")).unwrap_err();
    assert!(matches!(err, AiGatewayError::UpstreamTimeout));
    assert_eq!(requests, 1);
}

#[test]
fn invalid_json_422_returns_immediately() {
    let mut ai = client(HuggianAiConfig { max_retries: 3, ..base_cfg() });
    let mut requests = 0;
    let err = complete(&mut ai, 0, &mut requests, || refused(422, "")).unwrap_err();
    assert!(matches!(err, AiGatewayError::InvalidJson));
    assert_eq!(requests, 1);
}

#[test]
fn a_misconfigured_provider_carries_the_gateways_message() {
    let mut ai = client(base_cfg());
    let mut requests = 0;
    let body = "{\"error_code\":\"provider_misconfigured\",\"error\":\"no key\"}";
    match complete(&mut ai, 0, &mut requests, || refused(503, body)) {
        Err(AiGatewayError::ProviderMisconfigured(why)) => assert_eq!(why, "no key"),
        other => panic!("expected ProviderMisconfigured, got {other:?}"),
    }
    let body = "{\"error_code\":\"provider_misconfigured\"}";
    match complete(&mut ai, 0, &mut requests, || refused(503, body)) {
        Err(AiGatewayError::ProviderMisconfigured(why)) => assert_eq!(why, ""),
        other => panic!("expected ProviderMisconfigured, got {other:?}"),
    }
    assert_eq!(requests, 2);
}

#[test]
fn a_failure_that_is_not_transient_and_a_bad_body_are_final() {
    let mut ai = client(base_cfg());
    let mut requests = 0;
    let err = complete(&mut ai, 0, &mut requests, || Response::Unsent {
        transient: false,
        error: "builder error".into(),
    })
    .unwrap_err();
    assert_eq!(err.message(), "transport: builder error");
    let err = complete(&mut ai, 0, &mut requests, || Response::Json(Err("eof".into()))).unwrap_err();
    assert_eq!(err.message(), "transport: eof");
    assert_eq!(requests, 2);
}

#[test]
fn an_unreadable_error_body_counts_as_empty() {
    let mut ai = client(HuggianAiConfig { max_retries: 0, ..base_cfg() });
    let mut requests = 0;
    let err = complete(&mut ai, 0, &mut requests, || Response::Refused { status: 500, body: None })
        .unwrap_err();
    assert!(matches!(err,
        AiGatewayError::Upstream { status: 500, code: AiErrorCode::Unknown, body } if body.is_empty()));
}

#[test]
fn a_refusal_is_judged_by_its_code() {
    let cfg = base_cfg();
    assert!(cfg.judge_refusal(2, 500, AiErrorCode::Unknown, None, String::new()).is_none());
    assert!(cfg.judge_refusal(3, 500, AiErrorCode::Unknown, None, String::new()).is_some());
    assert!(cfg.judge_refusal(0, 500, AiErrorCode::RateLimit, None, String::new()).is_some());
    assert!(cfg.judge_refusal(0, 400, AiErrorCode::Unknown, None, String::new()).is_some());
    assert!(cfg.judge_refusal(2, 429, AiErrorCode::InvalidToken, None, String::new()).is_none());
}

#[test]
fn the_wait_doubles_up_to_five_seconds() {
    let caps: Vec<u64> = (0..8).map(backoff_cap_ms).collect();
    assert_eq!(caps, [200, 400, 800, 1600, 3200, 5000, 5000, 5000]);
    assert_eq!(backoff_cap_ms(63), 5000);
    let waits: Vec<u64> = (0..200).map(|_| backoff(10)).collect();
    assert!(waits.iter().all(|w| *w <= 5000));
    assert!(waits.iter().any(|w| *w != waits[0]), "jitter");
}

// --- Circuit breaker --------------------------------------------------

#[test]
fn breaker_opens_after_threshold_and_blocks_next_call() {
    let mut ai =
        client(HuggianAiConfig { breaker_threshold: 3, max_retries: 0, ..base_cfg() });
    let mut requests = 0;
    for _ in 0..3 {
        let _ = complete(&mut ai, 0, &mut requests, || refused(502, UPSTREAM_ERROR));
    }
    assert_eq!(requests, 3, "threshold reached, one request each");

    let err = complete(&mut ai, 0, &mut requests, || refused(502, UPSTREAM_ERROR)).unwrap_err();
    assert!(
        matches!(err, AiGatewayError::CircuitOpen { last: AiErrorCode::UpstreamError }),
        "breaker-open call must be distinguishable from a live failure, got {err:?}"
    );
    assert_eq!(err.code(), AiErrorCode::UpstreamError, "code() replays the opening failure");
    assert_eq!(requests, 3, "breaker-open call must make ZERO HTTP requests");
}

#[test]
fn half_open_probe_success_closes_breaker_and_resumes_traffic() {
    let mut ai = client(HuggianAiConfig {
        breaker_threshold: 3,
        breaker_cooldown: 600 * MS,
        max_retries: 0,
        ..base_cfg()
    });
    let mut requests = 0;
    for _ in 0..3 {
        let _ = complete(&mut ai, 0, &mut requests, || refused(502, UPSTREAM_ERROR));
    }
    assert_eq!(requests, 3, "breaker now open");

    // Still inside the cooldown window -> zero additional requests.
    let _ = complete(&mut ai, 599 * MS, &mut requests, || Response::Json(Ok(Value::Null)));
    assert_eq!(requests, 3);

    // Cooldown elapses -> exactly one probe.
    let probe = complete(&mut ai, 750 * MS, &mut requests, || Response::Json(Ok(Value::Null)));
    assert!(probe.is_ok(), "probe should hit the now-healthy mock: {probe:?}");
    assert_eq!(requests, 4, "exactly one probe request");

    // Breaker closed by the successful probe -> normal traffic resumes.
    let normal = complete(&mut ai, 750 * MS, &mut requests, || Response::Json(Ok(Value::Null)));
    assert!(normal.is_ok());
    assert_eq!(requests, 5);
}

#[test]
fn half_open_probe_failure_reopens_breaker() {
    let mut ai = client(HuggianAiConfig {
        breaker_threshold: 3,
        breaker_cooldown: 600 * MS,
        max_retries: 0,
        ..base_cfg()
    });
    let mut requests = 0;
    for _ in 0..3 {
        let _ = complete(&mut ai, 0, &mut requests, || refused(502, UPSTREAM_ERROR));
    }
    assert_eq!(requests, 3);

    let probe = complete(&mut ai, 750 * MS, &mut requests, || refused(502, UPSTREAM_ERROR));
    assert!(probe.is_err(), "provider is still broken, probe must fail");
    assert_eq!(requests, 4, "exactly one probe request");

    // Re-opened -> immediately blocked again, zero more requests.
    let _ = complete(&mut ai, 750 * MS, &mut requests, || refused(502, UPSTREAM_ERROR));
    assert_eq!(requests, 4);
}

#[test]
fn abandoned_half_open_probe_does_not_wedge_the_breaker() {
    let mut breaker = CircuitBreaker::new(2, 10 * SEC, 0);
    let fail: Result<Value, AiGatewayError> = Err(AiGatewayError::NoProvider);

    for _ in 0..2 {
        breaker.before_call(0).expect("closed breaker admits");
        breaker.after_call(&fail, 0);
    }
    assert!(breaker.before_call(0).is_err(), "threshold reached — breaker must be open");

    // Cooldown elapses, the probe is admitted, then abandoned.
    breaker.before_call(11 * SEC).expect("cooldown elapsed — probe admitted");
    breaker.abandon(11 * SEC);

    // The abandoned probe counts as a failure, so we are Open again with a
    // fresh cooldown — recoverable — rather than wedged in HalfOpen.
    breaker
        .before_call(22 * SEC)
        .expect("breaker must recover after an abandoned probe, not wedge forever");
    breaker.after_call(&Ok(Value::Null), 22 * SEC);

    assert!(breaker.before_call(22 * SEC).is_ok(), "a successful probe closes the breaker");
}

#[test]
fn client_4xx_never_trips_the_breaker() {
    for (status, body) in [
        (400u16, "{\"error_code\": \"unknown\", \"error\": \"invalid request\"}"),
        (401u16, "{\"error_code\": \"invalid_token\", \"error\": \"bad token\"}"),
    ] {
        let mut ai =
            client(HuggianAiConfig { breaker_threshold: 3, max_retries: 0, ..base_cfg() });
        let mut requests = 0;
        // Well past the threshold — every one must still reach the network.
        for _ in 0..6 {
            let err = complete(&mut ai, 0, &mut requests, || refused(status, body)).unwrap_err();
            assert!(
                !matches!(err, AiGatewayError::CircuitOpen { .. }),
                "{status} tripped the breaker; a client error must not"
            );
        }
        assert_eq!(
            requests, 6,
            "{status} must not open the breaker — all 6 calls reach the gateway"
        );
    }
}

#[test]
fn invalid_json_never_trips_the_breaker() {
    let mut ai =
        client(HuggianAiConfig { breaker_threshold: 3, max_retries: 0, ..base_cfg() });
    let mut requests = 0;
    // More consecutive 422s than the breaker threshold — must never trip.
    for _ in 0..5 {
        let err = complete(&mut ai, 0, &mut requests, || {
            refused(422, "{\"error_code\": \"invalid_json\"}")
        })
        .unwrap_err();
        assert!(matches!(err, AiGatewayError::InvalidJson));
    }
    assert_eq!(requests, 5, "invalid_json must never be short-circuited by the breaker");
}

#[test]
fn incident_2026_08_gemini_amplification_stays_bounded() {
    let mut ai =
        client(HuggianAiConfig { breaker_threshold: 5, max_retries: 3, ..base_cfg() });
    let mut requests = 0;
    for _ in 0..100 {
        let _ = complete(&mut ai, 0, &mut requests, || refused(502, UPSTREAM_ERROR));
    }
    assert_eq!(requests, 5, "breaker should cap total requests at the threshold, got {requests}");
    assert!(
        requests < 400,
        "pre-fix behaviour: 100 items * (max_retries+1) = 400 requests; got {requests}"
    );
}

#[test]
fn a_call_without_a_slot_times_out_and_leaves_the_breaker_alone() {
    let mut ai = client(HuggianAiConfig { breaker_threshold: 1, ..base_cfg() });
    let step = ai.advance(Post::Queued, PostEvent::Permit(false), 0);
    assert!(matches!(step, PostStep::Done(Err(AiGatewayError::UpstreamTimeout))));
    assert_eq!(ai.breaker.state.consecutive_failures, 0);
    assert_eq!(ai.breaker.state.phase, BreakerPhase::Closed);
}

#[test]
fn only_one_probe_is_let_through() {
    let mut breaker = CircuitBreaker::new(1, 10, 0);
    breaker.after_call(&Err(AiGatewayError::RateLimited), 0);
    assert!(breaker.before_call(9).is_err());
    assert!(breaker.before_call(10).is_ok());
    assert!(breaker.before_call(10).is_err());
    assert!(breaker.before_call(MAX_NANOS).is_err());
}

#[test]
fn stragglers_do_not_extend_the_cooldown() {
    let mut breaker = CircuitBreaker::new(2, 100, 0);
    for now in [0, 10] {
        breaker.after_call(&Err(AiGatewayError::UpstreamTimeout), now);
    }
    assert_eq!(breaker.state.open_until, 110);
    breaker.after_call(&Err(AiGatewayError::NoProvider), 90);
    assert_eq!(breaker.state.open_until, 110);
    match breaker.before_call(109) {
        Err(AiGatewayError::CircuitOpen { last }) => assert_eq!(last, AiErrorCode::UpstreamTimeout),
        other => panic!("expected CircuitOpen, got {other:?}"),
    }
    assert!(breaker.before_call(110).is_ok());
}

#[test]
fn the_code_that_opened_the_breaker_is_replayed_while_it_stays_open() {
    let mut breaker = CircuitBreaker::new(1, 10 * SEC, 0);
    assert!(breaker.before_call(0).is_ok());
    assert!(breaker.before_call(0).is_ok());
    breaker.after_call(&Err(AiGatewayError::NoProvider), 0);
    breaker.after_call(&Err(AiGatewayError::RateLimited), SEC);
    match breaker.before_call(9 * SEC) {
        Err(AiGatewayError::CircuitOpen { last }) => assert_eq!(last, AiErrorCode::NoProvider),
        other => panic!("expected CircuitOpen, got {other:?}"),
    }
    // A probe that fails opens it anew, with its own code.
    assert!(breaker.before_call(10 * SEC).is_ok());
    breaker.after_call(&Err(AiGatewayError::RateLimited), 10 * SEC);
    match breaker.before_call(11 * SEC) {
        Err(AiGatewayError::CircuitOpen { last }) => assert_eq!(last, AiErrorCode::RateLimit),
        other => panic!("expected CircuitOpen, got {other:?}"),
    }
}

#[test]
fn a_zero_threshold_opens_at_the_first_failure() {
    let mut breaker = CircuitBreaker::new(0, 10, 0);
    assert!(breaker.before_call(0).is_ok());
    breaker.after_call(&Err(AiGatewayError::Transport("x".into())), 0);
    assert!(matches!(
        breaker.before_call(0),
        Err(AiGatewayError::CircuitOpen { last: AiErrorCode::Unknown })
    ));
}

#[test]
fn an_answer_that_is_no_outage_closes_a_probe_and_keeps_a_streak() {
    let mut breaker = CircuitBreaker::new(2, 10, 0);
    breaker.after_call(&Err(AiGatewayError::NoProvider), 0);
    breaker.after_call(&Err(AiGatewayError::InvalidJson), 0);
    assert_eq!(breaker.state.consecutive_failures, 1);
    breaker.after_call(&Err(AiGatewayError::NoProvider), 0);
    assert_eq!(breaker.state.phase, BreakerPhase::Open);
    assert!(breaker.before_call(10).is_ok());
    breaker.after_call(&Err(AiGatewayError::InvalidJson), 10);
    assert_eq!(breaker.state.phase, BreakerPhase::Closed);
    assert_eq!(breaker.state.consecutive_failures, 0);
}

// --- Taxonomy ---------------------------------------------------------

#[test]
fn every_code_is_read_back_from_its_name() {
    for code in [
        AiErrorCode::NoProvider,
        AiErrorCode::ProviderMisconfigured,
        AiErrorCode::UpstreamError,
        AiErrorCode::UpstreamTimeout,
        AiErrorCode::RateLimit,
        AiErrorCode::InvalidJson,
        AiErrorCode::InvalidToken,
        AiErrorCode::Unknown,
    ] {
        assert_eq!(AiErrorCode::parse(code.as_str()), code);
    }
    assert_eq!(AiErrorCode::parse("Rate_Limit"), AiErrorCode::Unknown);
    assert_eq!(AiErrorCode::parse(""), AiErrorCode::Unknown);
}

#[test]
fn a_body_tells_its_code_and_message() {
    let body = "{\"error\":\"boom\",\"error_code\":\"rate_limit\",\"request_id\":\"r\"}";
    assert_eq!(parse_error_code(body), AiErrorCode::RateLimit);
    assert_eq!(parse_error_message(body).as_deref(), Some("boom"));
    for body in ["", "nope", "[]", "{}", "{\"error_code\":7,\"error\":null}", "\"error_code\""] {
        assert_eq!(parse_error_code(body), AiErrorCode::Unknown, "{body}");
        assert_eq!(parse_error_message(body), None, "{body}");
    }
}

#[test]
fn errors_have_codes_and_words() {
    let upstream = |status: u16, code: AiErrorCode| AiGatewayError::Upstream {
        status,
        code,
        body: "b".into(),
    };
    let cases = [
        (AiGatewayError::NoProvider, AiErrorCode::NoProvider, "no provider available (503)"),
        (
            AiGatewayError::ProviderMisconfigured("w".into()),
            AiErrorCode::ProviderMisconfigured,
            "provider misconfigured (503): w",
        ),
        (AiGatewayError::RateLimited, AiErrorCode::RateLimit, "rate limited (429)"),
        (AiGatewayError::UpstreamTimeout, AiErrorCode::UpstreamTimeout, "upstream timeout (504)"),
        (AiGatewayError::InvalidJson, AiErrorCode::InvalidJson, "invalid json from provider (422)"),
        (
            upstream(401, AiErrorCode::InvalidToken),
            AiErrorCode::InvalidToken,
            "upstream error 401 [invalid_token]: b",
        ),
        (AiGatewayError::Transport("w".into()), AiErrorCode::Unknown, "transport: w"),
        (AiGatewayError::Deserialization("w".into()), AiErrorCode::Unknown, "deserialization: w"),
        (
            AiGatewayError::CircuitOpen { last: AiErrorCode::RateLimit },
            AiErrorCode::RateLimit,
            "ai gateway circuit breaker open (last upstream failure: rate_limit) — call not attempted",
        ),
    ];
    for (error, code, words) in cases {
        assert_eq!(error.code(), code);
        assert_eq!(error.message(), words);
    }
}

#[test]
fn only_outages_count() {
    let upstream = |status: u16| AiGatewayError::Upstream {
        status,
        code: AiErrorCode::Unknown,
        body: String::new(),
    };
    assert!(is_availability_failure(&upstream(500)) && is_availability_failure(&upstream(599)));
    assert!(!is_availability_failure(&upstream(499)) && !is_availability_failure(&upstream(600)));
    assert!(is_availability_failure(&AiGatewayError::Transport(String::new())));
    assert!(!is_availability_failure(&AiGatewayError::Deserialization(String::new())));
    assert!(!is_availability_failure(&AiGatewayError::CircuitOpen { last: AiErrorCode::Unknown }));
}

// --- Client -------------------------------------------------------------

#[test]
fn a_trailing_slash_on_the_base_url_is_tolerated() {
    for base in ["http://gw", "http://gw/", "http://gw///"] {
        let ai = client(HuggianAiConfig { base_url: base.into(), ..base_cfg() });
        assert_eq!(ai.complete_with_usage().url, "http://gw/api/ai/complete");
        let request = ai.complete_structured_with_usage();
        assert_eq!(request.url, "http://gw/api/ai/complete-structured");
        assert_eq!((request.service_token.as_str(), request.timeout), ("test-token", 5 * SEC));
    }
}

#[test]
fn concurrency_is_kept_between_one_and_sixty_four() {
    for (given, kept) in [(0, 1), (1, 1), (8, 8), (64, 64), (65, 64), (usize::MAX, 64)] {
        assert_eq!(HuggianAiClient::new(base_cfg(), given, 0).concurrency, kept);
    }
}

#[test]
fn a_completion_carries_its_usage_and_a_bad_shape_is_an_error() {
    let usage = Some(UsageWire { input_tokens: 3, output_tokens: 4 });
    let done = completion(Ok(CompleteResponse { text: "ok".into(), usage })).unwrap();
    assert_eq!(done.text, "ok");
    assert_eq!(done.usage, Some(Usage { input_tokens: 3, output_tokens: 4 }));
    let done = completion(Ok(CompleteResponse { text: "ok".into(), usage: None })).unwrap();
    assert_eq!(done.usage, None);
    assert!(matches!(completion(Err("missing field".into())),
        Err(AiGatewayError::Deserialization(why)) if why == "missing field"));
    let data = Value::from(7);
    let done =
        structured_completion(Ok(StructuredResponse { data: data.clone(), usage: None })).unwrap();
    assert_eq!(done.clone().data, data);
    assert!(structured_completion(Err("x".into())).is_err());
    assert_eq!(Usage::default(), Usage { input_tokens: 0, output_tokens: 0 });
}
