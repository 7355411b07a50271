use huggian_client::billing::state::parse_dt;
use huggian_client::billing::types::CheckoutResponse;
use huggian_client::billing::{
    resolve_state, BillingError, CheckoutOutcome, Plan, Subscription, SubscriptionKind,
};
use huggian_client::billing_axum::{
    checkout_url, CheckoutBody, HttpError, PlanView, SubscriptionView,
};

fn plan(interval: &str) -> Plan {
    Plan {
        id: "p1".into(),
        name: "Cochera".into(),
        slug: "cochera".into(),
        price_cents: 3000000,
        currency: "ARS".into(),
        interval: interval.into(),
        limits: vec![],
    }
}

fn declined(reason: &str) -> HttpError {
    let response =
        CheckoutResponse { checkout_url: None, reason: Some(reason.to_string()) };
    checkout_url(CheckoutOutcome::from(response)).unwrap_err()
}

#[test]
fn a_missing_credential_is_a_401() {
    assert_eq!(HttpError::unauthorized(), HttpError { status: 401, code: "UNAUTHORIZED" });
}

#[test]
fn subscription_returns_the_snake_case_view() {
    let now = parse_dt("2026-09-23T12:00:00Z").unwrap();
    let trial_end = now.checked_add_days(10).unwrap();
    let row = Subscription {
        id: "s1".into(),
        status: "trialing".into(),
        plan_id: "p1".into(),
        plan: Some(plan("month")),
        trial_ends_at: Some(trial_end.to_rfc3339()),
        current_period_end: None,
        kind: None,
        effective_limits: None,
    };
    let view = SubscriptionView::new(resolve_state(&[row], now), now);
    assert_eq!(view.state.as_str(), "trial_active");
    assert_eq!(view.plan.as_deref(), Some("cochera"));
    assert_eq!(view.status, "trialing");
    assert_eq!(view.trial_days_remaining, Some(10));
    assert_eq!(view.trial_ends_at, Some(trial_end));
    assert!(view.grace_ends_at.is_none());
    assert_eq!(view.state, SubscriptionKind::TrialActive);
}

#[test]
fn plans_lists_slug_id_and_the_exact_price() {
    let view = PlanView::from(plan("month"));
    assert_eq!((view.id.as_str(), view.name.as_str()), ("cochera", "Cochera"));
    assert_eq!((view.price_cents, view.interval), (3000000, "month"));
    assert_eq!(PlanView::from(plan("year")).interval, "year");
    assert_eq!(PlanView::from(plan("weekly")).interval, "month");
}

#[test]
fn checkout_returns_the_payment_url() {
    let response =
        CheckoutResponse { checkout_url: Some("https://mp/init".into()), reason: None };
    let answer = checkout_url(CheckoutOutcome::from(response));
    assert_eq!(answer, Ok("https://mp/init".to_string()));
}

#[test]
fn a_declined_checkout_maps_to_a_409_with_a_stable_code() {
    for (reason, code) in [
        ("checkout_already_pending", "SUBSCRIPTION_PAYMENT_ALREADY_SCHEDULED"),
        ("provider_unreachable", "MERCADOPAGO_UNREACHABLE"),
        ("stale_preapproval_cancel_failed", "MERCADOPAGO_PREVIOUS_SUBSCRIPTION_NOT_CANCELLED"),
    ] {
        assert_eq!(declined(reason), HttpError { status: 409, code }, "{reason}");
    }
    assert_eq!(declined("brand_new"), HttpError { status: 502, code: "BILLING_UPSTREAM_ERROR" });
}

#[test]
fn a_missing_subscription_is_a_404() {
    let error = HttpError::from(BillingError::NotFound("customer"));
    assert_eq!(error, HttpError::new(404, "SUBSCRIPTION_NOT_FOUND"));
}

#[test]
fn billing_errors_have_stable_codes() {
    assert_eq!(
        HttpError::from(BillingError::PlanUnavailable("cochera".into())),
        HttpError { status: 503, code: "SUBSCRIPTION_PLAN_UNAVAILABLE" }
    );
    let dead = BillingError::Transport { op: "list plans", source: "refused".into() };
    for error in [
        dead,
        BillingError::Unauthorized,
        BillingError::Decode { op: "list plans", detail: "x".into() },
        BillingError::Upstream { op: "list plans", status: 500, body: String::new() },
    ] {
        assert_eq!(
            HttpError::from(error),
            HttpError { status: 502, code: "BILLING_UPSTREAM_ERROR" }
        );
    }
}

#[test]
fn the_payer_comes_back_to_the_root_by_default() {
    let body = CheckoutBody { back_url: None, payer_email: None };
    assert_eq!(body.back_url(), "/");
    let body = CheckoutBody { back_url: Some("/plan".into()), payer_email: None };
    assert_eq!(body.back_url(), "/plan");
}
