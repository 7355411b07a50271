use huggian_client::billing::state::parse_dt;
use huggian_client::billing::types::{default_interval, CheckoutResponse};
use huggian_client::billing::{CheckoutDeclined, CheckoutOutcome, Plan, Subscription};
use huggian_client::time::{Timestamp, MAX_SECS};

fn plan(interval: Option<&str>) -> Plan {
    Plan {
        id: "p".into(),
        name: "N".into(),
        slug: "s".into(),
        price_cents: 1,
        currency: "ARS".into(),
        interval: interval.map(str::to_string).unwrap_or_else(default_interval),
        limits: vec![],
    }
}

fn at(s: &str) -> Timestamp {
    parse_dt(s).unwrap()
}

fn sub(status: &str, kind: Option<&str>) -> Subscription {
    Subscription {
        id: "s1".into(),
        status: status.into(),
        plan_id: "p1".into(),
        plan: None,
        trial_ends_at: None,
        current_period_end: None,
        kind: kind.map(str::to_string),
        effective_limits: None,
    }
}

#[test]
fn missing_interval_defaults_to_monthly_and_unknown_is_normalised() {
    assert_eq!(plan(None).normalized_interval(), "month");
    assert_eq!(plan(Some("weekly")).normalized_interval(), "month");
    assert_eq!(plan(Some("year")).normalized_interval(), "year");
}

#[test]
fn period_end_is_thirty_days_for_month_and_twelve_months_for_year() {
    let start = at("2026-01-31T00:00:00Z");
    assert_eq!(plan(None).period_end_from(start), at("2026-03-02T00:00:00Z"));
    assert_eq!(plan(Some("year")).period_end_from(start), at("2027-01-31T00:00:00Z"));
}

#[test]
fn kind_absent_or_plan_is_a_plan_and_anything_else_is_not() {
    assert!(sub("active", None).is_plan());
    assert!(sub("active", Some("plan")).is_plan());
    assert!(!sub("active", Some("addon")).is_plan());
    assert!(!sub("active", Some("Plan")).is_plan());
}

#[test]
fn terminal_statuses_are_not_open() {
    for closed in ["cancelled", "incomplete_expired", "expired"] {
        assert!(!sub(closed, None).is_open(), "{closed}");
    }
    for open in ["trialing", "active", "incomplete", "past_due"] {
        assert!(sub(open, None).is_open(), "{open}");
    }
}

#[test]
fn checkout_outcome_maps_url_and_every_known_reason() {
    let r = |u: Option<&str>, reason: Option<&str>| {
        CheckoutOutcome::from(CheckoutResponse {
            checkout_url: u.map(str::to_string),
            reason: reason.map(str::to_string),
        })
    };
    assert_eq!(r(Some("https://mp/x"), None), CheckoutOutcome::Url("https://mp/x".into()));
    assert_eq!(
        r(None, Some("checkout_already_pending")),
        CheckoutOutcome::Declined(CheckoutDeclined::AlreadyPending)
    );
    assert_eq!(
        r(None, Some("provider_unreachable")),
        CheckoutOutcome::Declined(CheckoutDeclined::ProviderUnreachable)
    );
    assert_eq!(
        r(None, Some("stale_preapproval_cancel_failed")),
        CheckoutOutcome::Declined(CheckoutDeclined::StalePreapprovalCancelFailed)
    );
    assert_eq!(
        r(None, Some("brand_new")),
        CheckoutOutcome::Declined(CheckoutDeclined::Other("brand_new".into()))
    );
    assert_eq!(
        r(None, None),
        CheckoutOutcome::Declined(CheckoutDeclined::Other("no_checkout_url".into()))
    );
}

#[test]
fn a_link_wins_over_a_reason() {
    let outcome = CheckoutOutcome::from(CheckoutResponse {
        checkout_url: Some("https://mp/x".into()),
        reason: Some("provider_unreachable".into()),
    });
    assert_eq!(outcome, CheckoutOutcome::Url("https://mp/x".into()));
}

#[test]
fn a_year_from_a_leap_day_ends_on_the_last_of_february() {
    let start = at("2028-02-29T10:20:30Z");
    assert_eq!(plan(Some("year")).period_end_from(start), at("2029-02-28T10:20:30Z"));
    assert_eq!(plan(Some("Year")).period_end_from(start), at("2028-03-30T10:20:30Z"));
}

#[test]
fn a_period_outside_the_calendar_is_none() {
    let last = Timestamp { secs: MAX_SECS, nanos: 0 };
    assert_eq!(plan(None).checked_period_end_from(last), None);
    assert_eq!(plan(Some("year")).checked_period_end_from(last), None);
    let start = at("2026-01-31T00:00:00Z");
    assert_eq!(plan(None).checked_period_end_from(start), Some(at("2026-03-02T00:00:00Z")));
}
