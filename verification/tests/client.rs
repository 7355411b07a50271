use huggian_client::billing::client::{
    body_text, found_customer, plan_rows, received, refused, undecodable, Call, Method, Received,
    RequestBody, DEFAULT_READ_TIMEOUT,
};
use huggian_client::billing::state::parse_dt;
use huggian_client::billing::types::CheckoutResponse;
use huggian_client::billing::{
    BillingClient, BillingConfig, BillingError, CheckoutDeclined, CheckoutOutcome, Customer,
    Subscription,
};
use huggian_client::time::Timestamp;
use huggian_client::url::{encoded_len, BASE_GROWTH, MAX_URL_TEXT};

fn client() -> BillingClient {
    BillingClient::new(BillingConfig::new("http://core.test", "key-1"))
}

fn at(s: &str) -> Timestamp {
    parse_dt(s).unwrap()
}

fn customer(id: &str) -> Customer {
    Customer { id: id.into(), email: None, external_id: None }
}

fn row(id: &str, kind: Option<&str>) -> Subscription {
    Subscription {
        id: id.into(),
        status: "active".into(),
        plan_id: "x".into(),
        plan: None,
        trial_ends_at: None,
        current_period_end: None,
        kind: kind.map(str::to_string),
        effective_limits: None,
    }
}

#[test]
fn find_customer_sends_the_api_key_and_a_404_is_none() {
    let request = client().find_customer_by_external_id("co-1").unwrap();
    assert_eq!(request.method, Method::Get);
    assert_eq!(request.url, "http://core.test/v1/customers/external/co-1");
    assert_eq!(request.api_key, "key-1");
    assert_eq!(request.timeout, Some(DEFAULT_READ_TIMEOUT));
    assert!(matches!(received(request.op, Ok(200)), Received::Success));
    assert_eq!(found_customer(Ok(customer("c1"))).unwrap().unwrap().id, "c1");

    let request = client().find_customer_by_external_id("nope").unwrap();
    let answer = match received(request.op, Ok(404)) {
        Received::Failed(e) => Err(e),
        other => panic!("expected a failure, got {other:?}"),
    };
    assert!(found_customer(answer).unwrap().is_none());
}

#[test]
fn an_external_id_can_never_add_a_path_segment() {
    let request = client().find_customer_by_external_id("a/b").unwrap();
    assert_eq!(request.url, "http://core.test/v1/customers/external/a%2Fb");
}

#[test]
fn delimiters_and_other_scripts_in_an_id_are_percent_encoded() {
    let url = |id: &str| client().find_customer_by_external_id(id).unwrap().url;
    let base = "http://core.test/v1/customers/external/";
    assert_eq!(url("a?b#c"), format!("{base}a%3Fb%23c"));
    assert_eq!(url("a\\b"), format!("{base}a%5Cb"));
    assert_eq!(url("100%"), format!("{base}100%25"));
    assert_eq!(url("ñ €"), format!("{base}%C3%B1%20%E2%82%AC"));
    assert_eq!(url("\u{1f600}"), format!("{base}%F0%9F%98%80"));
    assert_eq!(url("a&b=c:d@e;f~g"), format!("{base}a&b=c:d@e;f~g"));
    assert_eq!(url("[^|]"), format!("{base}[^|]"));
    assert_eq!(url("<\"`{}>"), format!("{base}%3C%22%60%7B%7D%3E"));
}

#[test]
fn an_id_that_names_a_directory_step_adds_nothing() {
    let url = |id: &str| client().find_customer_by_external_id(id).unwrap().url;
    assert_eq!(url(".."), "http://core.test/v1/customers/external");
    assert_eq!(url("."), "http://core.test/v1/customers/external");
    assert_eq!(url("..."), "http://core.test/v1/customers/external/...");
    assert_eq!(url(""), "http://core.test/v1/customers/external/");
}

#[test]
fn tabs_and_line_breaks_in_an_id_are_dropped() {
    let url = |id: &str| client().find_customer_by_external_id(id).unwrap().url;
    let base = "http://core.test/v1/customers/external/";
    assert_eq!(url("a\tb"), format!("{base}ab"));
    assert_eq!(url("\na/\r\nb\t"), format!("{base}a%2Fb"));
    assert_eq!(url("\t"), base);
    assert_eq!(url("a\t."), format!("{base}a."));
}

#[test]
fn different_ids_give_different_urls() {
    let ids = ["a/b", "a%2Fb", "a%2fb", "a b", "a+b", "A/B", "a//b", "", "ab"];
    let urls: Vec<String> =
        ids.iter().map(|id| client().find_customer_by_external_id(id).unwrap().url).collect();
    for i in 0..urls.len() {
        for j in 0..i {
            assert_ne!(urls[i], urls[j]);
        }
    }
}

#[test]
fn the_base_url_keeps_its_path_and_query() {
    let url = |base: &str| {
        BillingClient::new(BillingConfig::new(base, "k")).list_plans().unwrap().url
    };
    assert_eq!(url("https://core.test/api/"), "https://core.test/api/v1/plans");
    assert_eq!(url("https://core.test/api"), "https://core.test/api/v1/plans");
    assert_eq!(url("https://core.test:8443/?x=1"), "https://core.test:8443/v1/plans?x=1");
}

#[test]
fn a_base_url_that_cannot_be_built_on_is_a_decode_error() {
    let detail = |base: &str| match BillingClient::new(BillingConfig::new(base, "k")).list_plans() {
        Err(BillingError::Decode { op, detail }) => (op, detail),
        other => panic!("expected Decode, got {other:?}"),
    };
    assert_eq!(detail("not a url"), ("build url", "relative URL without a base".to_string()));
    assert_eq!(
        detail("mailto:a@b.c"),
        ("build url", "base url cannot carry a path".to_string())
    );
}

#[test]
fn create_customer_carries_metadata_only_when_given() {
    let request = client().create_customer("co-1", "Garage", "o@x.io", None).unwrap();
    assert_eq!(request.method, Method::Post);
    assert_eq!(request.url, "http://core.test/v1/customers");
    assert_eq!(request.api_key, "key-1");
    assert_eq!((request.timeout, request.query), (None, None));
    match request.body {
        RequestBody::CreateCustomer(body) => {
            assert_eq!(body.external_id, "co-1");
            assert_eq!(body.name, "Garage");
            assert_eq!(body.email, "o@x.io");
            assert_eq!(body.metadata, None);
        }
        other => panic!("expected a customer, got {other:?}"),
    }
    let metadata = serde_json::Value::from("vip");
    let request = client().create_customer("co-1", "Garage", "o@x.io", Some(metadata.clone()));
    match request.unwrap().body {
        RequestBody::CreateCustomer(body) => assert_eq!(body.metadata, Some(metadata)),
        other => panic!("expected a customer, got {other:?}"),
    }
}

#[test]
fn list_plans_asks_for_plan_kind() {
    let request = client().list_plans().unwrap();
    assert_eq!((request.op, request.method), ("list plans", Method::Get));
    assert_eq!(request.url, "http://core.test/v1/plans");
    assert_eq!(request.query, Some(("kind", "plan")));
    assert_eq!(request.timeout, None);
}

#[test]
fn create_subscription_body_carries_the_trial_only_when_given() {
    let start = at("2026-09-23T12:00:00Z");
    let end = at("2026-10-23T12:00:00Z");
    for trial in [Some(end), None] {
        let request =
            client().create_subscription("c1", "p1", "mercadopago", start, end, trial).unwrap();
        assert_eq!((request.op, request.method), ("create subscription", Method::Post));
        assert_eq!(request.url, "http://core.test/v1/subscriptions");
        match request.body {
            RequestBody::CreateSubscription(body) => {
                assert_eq!(body.customer_id, "c1");
                assert_eq!(body.plan_id, "p1");
                assert_eq!(body.payment_provider, "mercadopago");
                assert_eq!(body.current_period_start, "2026-09-23T12:00:00+00:00");
                assert_eq!(body.current_period_end, "2026-10-23T12:00:00+00:00");
                assert_eq!(
                    body.trial_ends_at.as_deref(),
                    trial.map(|_| "2026-10-23T12:00:00+00:00")
                );
            }
            other => panic!("expected a subscription, got {other:?}"),
        }
    }
}

#[test]
fn customer_subscriptions_drops_addon_rows_wherever_they_sit() {
    let request = client().customer_subscriptions("c1").unwrap();
    assert_eq!(request.op, "get customer subscriptions");
    assert_eq!(request.url, "http://core.test/v1/subscriptions/customer/c1");
    assert_eq!(request.timeout, Some(DEFAULT_READ_TIMEOUT));
    let rows = vec![row("a", Some("addon")), row("p", Some("plan")), row("o", None)];
    let ids: Vec<_> = plan_rows(rows).into_iter().map(|s| s.id).collect();
    assert_eq!(ids, ["p", "o"]);
    let rows = vec![row("p", None), row("a", Some("addon")), row("b", Some("addon"))];
    let ids: Vec<_> = plan_rows(rows).into_iter().map(|s| s.id).collect();
    assert_eq!(ids, ["p"]);
}

#[test]
fn a_declined_link_is_not_an_error() {
    let request = client().initiate_checkout("s1", "mercadopago", "", "/plan", None).unwrap();
    assert_eq!((request.op, request.method), ("initiate checkout", Method::Post));
    assert_eq!(request.url, "http://core.test/v1/payments/checkout");
    match request.body {
        RequestBody::Checkout(body) => {
            assert_eq!(body.subscription_id, "s1");
            assert_eq!(body.provider, "mercadopago");
            assert_eq!(body.customer_email, "");
            assert_eq!(body.back_url, "/plan");
            assert_eq!(body.success_url, None);
        }
        other => panic!("expected a checkout, got {other:?}"),
    }
    assert!(matches!(received(request.op, Ok(201)), Received::Success));
    let out = CheckoutOutcome::from(CheckoutResponse {
        checkout_url: None,
        reason: Some("checkout_already_pending".into()),
    });
    assert_eq!(out, CheckoutOutcome::Declined(CheckoutDeclined::AlreadyPending));
}

#[test]
fn checkout_success_returns_the_url_and_forwards_success_url() {
    let request = client()
        .initiate_checkout("s1", "mercadopago", "a@b.c", "/plan", Some("https://app/x"))
        .unwrap();
    match request.body {
        RequestBody::Checkout(body) => {
            assert_eq!(body.customer_email, "a@b.c");
            assert_eq!(body.success_url.as_deref(), Some("https://app/x"));
        }
        other => panic!("expected a checkout, got {other:?}"),
    }
    let out = CheckoutOutcome::from(CheckoutResponse {
        checkout_url: Some("https://mp/init".into()),
        reason: None,
    });
    assert_eq!(out, CheckoutOutcome::Url("https://mp/init".into()));
}

#[test]
fn cancel_is_a_delete_with_a_json_body_and_204_and_202_are_success() {
    let request = client().cancel_subscription("s1", Some("moving")).unwrap();
    assert_eq!((request.op, request.method), ("cancel subscription", Method::Delete));
    assert_eq!(request.url, "http://core.test/v1/subscriptions/s1");
    assert_eq!(request.api_key, "key-1");
    assert!(
        matches!(request.body, RequestBody::Cancel(body) if body.reason.as_deref() == Some("moving"))
    );
    let request = client().cancel_subscription("s2", None).unwrap();
    assert!(matches!(request.body, RequestBody::Cancel(body) if body.reason.is_none()));
    assert!(matches!(received(request.op, Ok(204)), Received::Success));
    assert!(matches!(received(request.op, Ok(202)), Received::Success));
    assert!(matches!(
        received(request.op, Ok(404)),
        Received::Failed(BillingError::NotFound("cancel subscription"))
    ));
}

#[test]
fn statuses_map_to_typed_errors() {
    assert!(matches!(
        received("list plans", Ok(403)),
        Received::Failed(BillingError::Unauthorized)
    ));
    assert!(matches!(
        received("list plans", Ok(401)),
        Received::Failed(BillingError::Unauthorized)
    ));
    assert!(matches!(received("list plans", Ok(500)), Received::Refused { status: 500 }));
    match refused("list plans", 500, Some("boom".into())) {
        BillingError::Upstream { status, body, .. } => {
            assert_eq!((status, body.as_str()), (500, "boom"))
        }
        other => panic!("expected Upstream, got {other:?}"),
    }
    assert!(matches!(received("list plans", Ok(302)), Received::Refused { status: 302 }));
    assert!(matches!(refused("list plans", 302, None),
        BillingError::Upstream { status: 302, body, .. } if body.is_empty()));
    match undecodable("list plans", "expected ident", "not json") {
        BillingError::Decode { op, detail } => {
            assert_eq!((op, detail.as_str()), ("list plans", "expected ident | body: not json"))
        }
        other => panic!("expected Decode, got {other:?}"),
    }
}

#[test]
fn an_unreachable_host_is_a_transport_error() {
    match received("list plans", Err("connection refused".into())) {
        Received::Failed(BillingError::Transport { op, source }) => {
            assert_eq!((op, source.as_str()), ("list plans", "connection refused"))
        }
        other => panic!("expected Transport, got {other:?}"),
    }
}

#[test]
fn an_unreadable_body_is_a_decode_error() {
    assert_eq!(body_text("list plans", Ok("{}".into())).unwrap(), "{}");
    match body_text("list plans", Err("reset".into())) {
        Err(BillingError::Decode { op, detail }) => {
            assert_eq!((op, detail.as_str()), ("list plans", "failed to read body: reset"))
        }
        other => panic!("expected Decode, got {other:?}"),
    }
}

#[test]
fn only_not_found_means_no_customer() {
    assert!(matches!(
        found_customer(Err(BillingError::Unauthorized)),
        Err(BillingError::Unauthorized)
    ));
    assert!(matches!(found_customer(Err(BillingError::NotFound("find customer"))), Ok(None)));
}

#[test]
fn a_call_is_made_with_its_request() {
    let c = client();
    let call = Call::CancelSubscription { subscription_id: "s 1".into(), reason: None };
    assert!(c.call_fits(&call));
    let request = c.request_for(&call).unwrap();
    assert_eq!(request.url, "http://core.test/v1/subscriptions/s%201");
    let request = c.request_for(&Call::ListPlans).unwrap();
    assert_eq!(request.op, "list plans");
    let start = at("2026-09-23T12:00:00Z");
    let request = c
        .request_for(&Call::CreateSubscription {
            customer_id: "c1".into(),
            plan_id: "p1".into(),
            payment_provider: "mp".into(),
            period_start: start,
            period_end: start,
            trial_ends_at: None,
        })
        .unwrap();
    assert!(matches!(request.body, RequestBody::CreateSubscription(b) if b.payment_provider == "mp"));
}

#[test]
fn urls_have_a_limit() {
    assert!(client().url_fits(""));
    assert!(client().url_fits(&"x".repeat(100_000_000)));
    let longest = usize::try_from(MAX_URL_TEXT / BASE_GROWTH).unwrap();
    let c = BillingClient::new(BillingConfig::new(&"x".repeat(longest), "k"));
    let rest = usize::try_from(MAX_URL_TEXT % BASE_GROWTH).unwrap();
    assert!(c.url_fits(&"x".repeat(rest)));
    assert!(!c.url_fits(&"x".repeat(rest + 1)));
    assert!(c.url_fits(&"%".repeat(rest / 3)));
    assert!(!c.url_fits(&"%".repeat(rest / 3 + 1)));
    let c = BillingClient::new(BillingConfig::new(&"x".repeat(longest + 1), "k"));
    assert!(!c.url_fits(""));
}

#[test]
fn a_segment_takes_one_or_three_characters_a_byte() {
    assert_eq!(encoded_len(""), 0);
    assert_eq!(encoded_len("a/b"), 5);
    assert_eq!(encoded_len("\u{20ac}"), 9);
    assert_eq!(encoded_len("<\"`{}>"), 18);
    let url = client().find_customer_by_external_id("a?\u{f1}~ z").unwrap().url;
    let base = "http://core.test/v1/customers/external/".len();
    assert_eq!(encoded_len("a?\u{f1}~ z"), (url.len() - base) as u128);
}

#[test]
fn errors_speak_in_words() {
    assert_eq!(BillingError::Unauthorized.message(), "huggian rejected the api key");
    assert_eq!(BillingError::NotFound("customer").message(), "customer not found");
    assert_eq!(
        refused("list plans", 500, Some("boom".into())).message(),
        "huggian list plans returned 500: boom"
    );
    let transport = BillingError::Transport { op: "list plans", source: "timed out".into() };
    assert_eq!(transport.message(), "huggian list plans unreachable: timed out");
    let decode = BillingError::Decode { op: "build url", detail: "x".into() };
    assert_eq!(decode.message(), "huggian build url sent an unparseable body: x");
    assert_eq!(
        BillingError::PlanUnavailable("cochera".into()).message(),
        "plan `cochera` is not available in the catalogue"
    );
}
