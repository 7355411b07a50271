use huggian_client::billing::state::{parse_dt, resolve_row};
use huggian_client::billing::types::Plan;
use huggian_client::billing::{
    resolve_state, Subscription, SubscriptionKind, SubscriptionState, GRACE_DAYS,
};
use huggian_client::time::Timestamp;

fn now() -> Timestamp {
    parse_dt("2026-09-23T12:00:00Z").unwrap()
}

fn plan() -> Plan {
    Plan {
        id: "p1".into(),
        name: "Cochera".into(),
        slug: "cochera".into(),
        price_cents: 3000000,
        currency: "ARS".into(),
        interval: "month".into(),
        limits: vec![],
    }
}

fn sub(status: &str, trial: Option<&str>, period_end: Option<&str>) -> Subscription {
    Subscription {
        id: "s1".into(),
        status: status.into(),
        plan_id: "p1".into(),
        plan: Some(plan()),
        trial_ends_at: trial.map(str::to_string),
        current_period_end: period_end.map(str::to_string),
        kind: None,
        effective_limits: None,
    }
}

fn addon() -> Subscription {
    Subscription {
        id: "a".into(),
        status: "active".into(),
        plan_id: "x".into(),
        plan: None,
        trial_ends_at: None,
        current_period_end: None,
        kind: Some("addon".into()),
        effective_limits: None,
    }
}

fn kind(subs: &[Subscription]) -> SubscriptionKind {
    resolve_state(subs, now()).kind
}

#[test]
fn no_subscriptions_is_never_subscribed() {
    let s = resolve_state(&[], now());
    assert_eq!(s, SubscriptionState::never_subscribed());
    assert!(!s.grants_access());
}

#[test]
fn an_addon_row_sorted_first_is_skipped_for_the_plan_row() {
    let subs = [addon(), sub("trialing", Some("2026-10-01T00:00:00Z"), None)];
    assert_eq!(kind(&subs), SubscriptionKind::TrialActive);
}

#[test]
fn only_addon_rows_is_never_subscribed() {
    assert_eq!(kind(&[addon()]), SubscriptionKind::NeverSubscribed);
}

#[test]
fn active_grants_access_and_carries_the_plan_slug() {
    let s = resolve_state(&[sub("active", None, None)], now());
    assert_eq!((s.kind, s.plan_slug.as_deref()), (SubscriptionKind::Active, Some("cochera")));
    assert!(s.grants_access());
}

#[test]
fn trialing_with_a_future_end_is_trial_active_and_counts_days() {
    let s = resolve_state(&[sub("trialing", Some("2026-09-28T12:00:00Z"), None)], now());
    assert_eq!(s.kind, SubscriptionKind::TrialActive);
    assert!(s.grants_access());
    assert_eq!(s.trial_days_remaining(now()), Some(5));
}

#[test]
fn trialing_with_a_past_or_missing_end_is_trial_expired() {
    assert_eq!(
        kind(&[sub("trialing", Some("2026-09-01T00:00:00Z"), None)]),
        SubscriptionKind::TrialExpired
    );
    assert_eq!(kind(&[sub("trialing", None, None)]), SubscriptionKind::TrialExpired);
    let s = resolve_state(&[sub("trialing", Some("2026-09-01T00:00:00Z"), None)], now());
    assert!(!s.grants_access());
    assert_eq!(s.trial_days_remaining(now()), Some(0), "never negative");
}

#[test]
fn trial_days_are_none_outside_a_trial_even_if_a_trial_date_lingers() {
    let s = resolve_state(&[sub("active", Some("2026-09-01T00:00:00Z"), None)], now());
    assert_eq!(s.trial_days_remaining(now()), None);
}

#[test]
fn past_due_inside_the_grace_window_still_grants_access() {
    let s = resolve_state(&[sub("past_due", None, Some("2026-09-20T12:00:00Z"))], now());
    assert_eq!(s.kind, SubscriptionKind::PastDue);
    assert!(s.grants_access());
    assert_eq!(s.grace_ends_at, parse_dt("2026-09-27T12:00:00Z"));
}

#[test]
fn unpaid_is_treated_like_past_due() {
    assert_eq!(
        kind(&[sub("unpaid", None, Some("2026-09-20T12:00:00Z"))]),
        SubscriptionKind::PastDue
    );
}

#[test]
fn past_due_beyond_grace_or_without_a_period_end_is_cancelled() {
    assert_eq!(
        kind(&[sub("past_due", None, Some("2026-09-01T00:00:00Z"))]),
        SubscriptionKind::Cancelled
    );
    assert_eq!(kind(&[sub("past_due", None, None)]), SubscriptionKind::Cancelled);
}

#[test]
fn grace_boundary_is_inclusive() {
    // period_end + 7d == now exactly
    assert_eq!(
        kind(&[sub("past_due", None, Some("2026-09-16T12:00:00Z"))]),
        SubscriptionKind::PastDue
    );
    assert_eq!(
        kind(&[sub("past_due", None, Some("2026-09-16T11:59:59Z"))]),
        SubscriptionKind::Cancelled
    );
}

#[test]
fn only_past_due_exposes_a_grace_deadline() {
    for status in ["active", "trialing", "cancelled"] {
        let s = resolve_state(
            &[sub(status, Some("2026-10-01T00:00:00Z"), Some("2026-09-20T12:00:00Z"))],
            now(),
        );
        assert_eq!(s.grace_ends_at, None, "{status}");
    }
}

#[test]
fn unknown_or_terminal_statuses_are_cancelled() {
    for status in ["cancelled", "incomplete", "expired", "mystery"] {
        assert_eq!(kind(&[sub(status, None, None)]), SubscriptionKind::Cancelled, "{status}");
    }
}

#[test]
fn kind_serialises_as_snake_case() {
    assert_eq!(SubscriptionKind::TrialActive.as_str(), "trial_active");
    assert_eq!(SubscriptionKind::NeverSubscribed.as_str(), "never_subscribed");
    assert_eq!(SubscriptionKind::Active.as_str(), "active");
    assert_eq!(SubscriptionKind::PastDue.as_str(), "past_due");
    assert_eq!(SubscriptionKind::TrialExpired.as_str(), "trial_expired");
    assert_eq!(SubscriptionKind::Cancelled.as_str(), "cancelled");
}

#[test]
fn the_first_plan_row_wins() {
    let subs = [sub("cancelled", None, None), sub("active", None, None)];
    assert_eq!(kind(&subs), SubscriptionKind::Cancelled);
}

#[test]
fn a_trial_that_ends_now_is_over() {
    let row = sub("trialing", Some("2026-09-23T12:00:00Z"), None);
    assert_eq!(kind(&[row]), SubscriptionKind::TrialExpired);
}

#[test]
fn an_offset_is_taken_into_account_and_an_unreadable_date_is_absent() {
    let s = resolve_state(&[sub("trialing", Some("2026-09-23T12:00:01-03:00"), None)], now());
    assert_eq!(s.trial_ends_at, parse_dt("2026-09-23T15:00:01Z"));
    assert_eq!(s.kind, SubscriptionKind::TrialActive);
    let s = resolve_state(&[sub("trialing", Some("tomorrow"), None)], now());
    assert_eq!((s.kind, s.trial_ends_at), (SubscriptionKind::TrialExpired, None));
    assert_eq!(s.trial_days_remaining(now()), None);
}

#[test]
fn a_row_resolves_the_same_with_its_dates_read() {
    let end = parse_dt("2026-09-20T12:00:00Z");
    let s = resolve_row(&sub("past_due", None, None), None, end, now());
    assert_eq!(s.kind, SubscriptionKind::PastDue);
    assert_eq!(s.grace_ends_at, end.unwrap().checked_add_days(GRACE_DAYS));
    assert_eq!(s.raw_status, "past_due");
}

#[test]
fn a_resolved_state_has_dates_of_the_calendar() {
    let s = resolve_state(&[sub("past_due", Some("2026-10-01T00:00:00Z"), Some("2026-09-20T12:00:00Z"))], now());
    assert!(s.is_dated());
    assert!(SubscriptionState::never_subscribed().is_dated());
    let nowhere = Some(Timestamp { secs: i64::MAX, nanos: 0 });
    assert!(!SubscriptionState { trial_ends_at: nowhere, ..s.clone() }.is_dated());
    assert!(!SubscriptionState { grace_ends_at: nowhere, ..s }.is_dated());
}

#[test]
fn ended_access_stays_ended() {
    let rows = [sub("past_due", None, Some("2026-09-16T11:59:59Z"))];
    for later in ["2026-09-23T12:00:00Z", "2026-10-23T12:00:00Z", "2030-01-01T00:00:00Z"] {
        assert!(!resolve_state(&rows, parse_dt(later).unwrap()).grants_access(), "{later}");
    }
}
