use huggian_client::billing::client::{received, refused, Call, Received, RequestBody};
use huggian_client::billing::service::{Flow, Output, Progress, Reply};
use huggian_client::billing::state::parse_dt;
use huggian_client::billing::types::CheckoutResponse;
use huggian_client::billing::{
    resolve_state, BillingClient, BillingConfig, BillingError, BillingService, CheckoutDeclined, CheckoutOutcome,
    CompanyIdentity, Customer, Plan, ServiceConfig, Subscription, SubscriptionKind,
    SubscriptionState, TrialOutcome,
};
use huggian_client::time::{Nanos, Timestamp};

const SEC: Nanos = 1_000_000_000;

fn who() -> CompanyIdentity {
    CompanyIdentity {
        company_id: "co-1".into(),
        name: "Garage Norte".into(),
        email: "owner@garage.io".into(),
    }
}

fn service(trial_days: i64) -> BillingService {
    BillingService::new(
        BillingClient::new(BillingConfig::new("http://core.test", "k")),
        ServiceConfig::new("cochera", trial_days),
    )
}

fn now() -> Timestamp {
    parse_dt("2026-09-23T12:00:00Z").unwrap()
}

fn in_days(d: i64) -> String {
    now().checked_add_days(d).unwrap().to_rfc3339()
}

fn plan() -> Plan {
    Plan {
        id: "p1".into(),
        name: "Cochera".into(),
        slug: "cochera".into(),
        price_cents: 3000000,
        currency: "ARS".into(),
        interval: "month".into(),
        limits: vec![],
    }
}

fn sub(id: &str, status: &str, trial: Option<String>) -> Subscription {
    Subscription {
        id: id.into(),
        status: status.into(),
        plan_id: "p1".into(),
        plan: Some(plan()),
        trial_ends_at: trial,
        current_period_end: Some(in_days(20)),
        kind: None,
        effective_limits: None,
    }
}

/// Core, as far as it is spoken to here. It records every call.
struct Core {
    customer: Option<Customer>,
    plans: Vec<Plan>,
    rows: Vec<Subscription>,
    checkout: CheckoutResponse,
    calls: Vec<Call>,
}

impl Core {
    fn new(customer: bool, rows: Vec<Subscription>) -> Self {
        let c1 = Customer { id: "c1".into(), email: None, external_id: Some("co-1".into()) };
        Core {
            customer: if customer { Some(c1) } else { None },
            plans: vec![plan()],
            rows,
            checkout: CheckoutResponse {
                checkout_url: Some("https://mp/init".into()),
                reason: None,
            },
            calls: vec![],
        }
    }

    fn answer(&mut self, call: Call) -> Result<Reply, BillingError> {
        self.calls.push(call.clone());
        Ok(match call {
            Call::FindCustomer { external_id } => {
                assert_eq!(external_id, "co-1");
                Reply::Found(self.customer.clone())
            }
            Call::CreateCustomer { external_id, name, email } => {
                assert_eq!(
                    (external_id.as_str(), name.as_str(), email.as_str()),
                    ("co-1", "Garage Norte", "owner@garage.io")
                );
                let c1 = Customer { id: "c1".into(), email: None, external_id: None };
                self.customer = Some(c1.clone());
                Reply::Customer(c1)
            }
            Call::ListPlans => Reply::Plans(self.plans.clone()),
            Call::CustomerSubscriptions { customer_id } => {
                assert_eq!(customer_id, "c1");
                Reply::Subscriptions(self.rows.clone())
            }
            Call::CreateSubscription { .. } => {
                let new = sub("new", "trialing", Some(in_days(30)));
                self.rows = vec![new.clone()];
                Reply::Subscription(new)
            }
            Call::InitiateCheckout { .. } => Reply::Checkout(CheckoutResponse {
                checkout_url: self.checkout.checkout_url.clone(),
                reason: self.checkout.reason.clone(),
            }),
            Call::CancelSubscription { .. } => Reply::Cancelled,
        })
    }

    fn created(&self) -> usize {
        self.calls.iter().filter(|c| matches!(c, Call::CreateSubscription { .. })).count()
    }
}

fn run(
    svc: &mut BillingService,
    core: &mut Core,
    start: Progress,
    tick: Nanos,
) -> Result<Output, BillingError> {
    let mut progress = start;
    loop {
        match progress {
            Progress::Ask { call, then } => {
                let reply = core.answer(call);
                assert!(svc.is_ready(&then, &reply, now()));
                progress = svc.resume(then, reply, now(), tick);
            }
            Progress::Done(result) => return result,
        }
    }
}

fn state(svc: &mut BillingService, core: &mut Core, tick: Nanos) -> SubscriptionState {
    let start = svc.state("co-1".into(), tick);
    match run(svc, core, start, tick) {
        Ok(Output::State(s)) => s,
        other => panic!("expected a state, got {other:?}"),
    }
}

fn ensure_trial(svc: &mut BillingService, core: &mut Core) -> Result<TrialOutcome, BillingError> {
    let start = svc.ensure_trial(who());
    match run(svc, core, start, 0)? {
        Output::Trial(outcome) => Ok(outcome),
        other => panic!("expected a trial, got {other:?}"),
    }
}

fn provision(svc: &mut BillingService, core: &mut Core) -> SubscriptionState {
    let start = svc.state_provisioning(who(), 0);
    match run(svc, core, start, 0) {
        Ok(Output::State(s)) => s,
        other => panic!("expected a state, got {other:?}"),
    }
}

fn checkout(svc: &mut BillingService, core: &mut Core) -> CheckoutOutcome {
    let start = svc.checkout(who(), "/plan".into(), None, None);
    match run(svc, core, start, 0) {
        Ok(Output::Checkout(outcome)) => outcome,
        other => panic!("expected an outcome, got {other:?}"),
    }
}

fn cancel(
    svc: &mut BillingService,
    core: &mut Core,
    reason: Option<&str>,
) -> Result<(), BillingError> {
    let start = svc.cancel("co-1".into(), reason.map(str::to_string));
    match run(svc, core, start, 0)? {
        Output::Cancelled => Ok(()),
        other => panic!("expected a cancellation, got {other:?}"),
    }
}

// -- state -----------------------------------------------------------------

#[test]
fn state_is_never_subscribed_without_a_customer_and_is_cached() {
    let (mut svc, mut core) = (service(30), Core::new(false, vec![]));
    assert_eq!(state(&mut svc, &mut core, 0).kind, SubscriptionKind::NeverSubscribed);
    assert_eq!(state(&mut svc, &mut core, 0).kind, SubscriptionKind::NeverSubscribed);
    assert_eq!(core.calls.len(), 1);
}

#[test]
fn state_resolves_a_live_trial() {
    let (mut svc, mut core) =
        (service(30), Core::new(true, vec![sub("s1", "trialing", Some(in_days(10)))]));
    let s = state(&mut svc, &mut core, 0);
    assert_eq!(s.kind, SubscriptionKind::TrialActive);
    assert_eq!(s.plan_slug.as_deref(), Some("cochera"));
}

#[test]
fn a_second_read_inside_the_ttl_makes_no_new_round_trip() {
    let (mut svc, mut core) = (service(30), Core::new(true, vec![sub("s1", "active", None)]));
    state(&mut svc, &mut core, 0);
    assert_eq!(state(&mut svc, &mut core, 59 * SEC).kind, SubscriptionKind::Active);
    assert_eq!(core.calls.len(), 2);
    state(&mut svc, &mut core, 60 * SEC);
    assert_eq!(core.calls.len(), 4, "the entry is a minute old");
}

#[test]
fn asking_for_a_state_creates_nothing() {
    for customer in [false, true] {
        let (mut svc, mut core) = (service(30), Core::new(customer, vec![]));
        assert_eq!(state(&mut svc, &mut core, 0).kind, SubscriptionKind::NeverSubscribed);
        for call in &core.calls {
            assert!(matches!(
                call,
                Call::FindCustomer { .. } | Call::CustomerSubscriptions { .. }
            ));
        }
    }
}

#[test]
fn plans_are_what_core_lists() {
    let (mut svc, mut core) = (service(30), Core::new(false, vec![]));
    let start = svc.plans();
    match run(&mut svc, &mut core, start, 0) {
        Ok(Output::Plans(plans)) => assert_eq!(plans[0].slug, "cochera"),
        other => panic!("expected plans, got {other:?}"),
    }
}

// -- trial -----------------------------------------------------------------

#[test]
fn ensure_trial_creates_the_customer_and_a_trial_that_leaves_the_plan_period_alone() {
    let (mut svc, mut core) = (service(45), Core::new(false, vec![]));
    let out = ensure_trial(&mut svc, &mut core).unwrap();
    assert!(matches!(out, TrialOutcome::Created(_)));
    assert!(core.calls.iter().any(|c| matches!(c, Call::CreateCustomer { .. })));
    assert_eq!(core.created(), 1);
    for call in &core.calls {
        if let Call::CreateSubscription {
            customer_id,
            plan_id,
            payment_provider,
            period_start,
            period_end,
            trial_ends_at,
        } = call
        {
            assert_eq!((customer_id.as_str(), plan_id.as_str()), ("c1", "p1"));
            assert_eq!(payment_provider, "mercadopago");
            // the plan's period, exactly
            assert_eq!(Some(*period_end), period_start.checked_add_days(30));
            // the trial is independent of it
            assert_eq!(*trial_ends_at, period_start.checked_add_days(45));
        }
    }
}

#[test]
fn ensure_trial_twice_never_creates_a_second_subscription() {
    let (mut svc, mut core) =
        (service(30), Core::new(true, vec![sub("s1", "trialing", Some(in_days(5)))]));
    assert!(matches!(ensure_trial(&mut svc, &mut core).unwrap(), TrialOutcome::Existing(_)));
    assert_eq!(core.created(), 0);
    let (mut svc, mut core) = (service(30), Core::new(false, vec![]));
    assert!(matches!(ensure_trial(&mut svc, &mut core).unwrap(), TrialOutcome::Created(_)));
    assert!(matches!(ensure_trial(&mut svc, &mut core).unwrap(), TrialOutcome::Existing(_)));
    assert_eq!(core.created(), 1);
}

#[test]
fn a_cancelled_customer_does_not_get_a_second_free_trial() {
    let (mut svc, mut core) =
        (service(30), Core::new(true, vec![sub("s1", "cancelled", Some(in_days(-40)))]));
    match ensure_trial(&mut svc, &mut core).unwrap() {
        TrialOutcome::Existing(s) => assert_eq!(s.id, "s1"),
        other => panic!("expected the old one, got {other:?}"),
    }
    assert_eq!(core.created(), 0);
}

#[test]
fn an_inactive_plan_is_reported_as_unavailable() {
    let (mut svc, mut core) = (service(30), Core::new(true, vec![]));
    core.plans = vec![];
    match ensure_trial(&mut svc, &mut core) {
        Err(BillingError::PlanUnavailable(slug)) => assert_eq!(slug, "cochera"),
        other => panic!("expected PlanUnavailable, got {other:?}"),
    }
}

#[test]
fn state_provisioning_starts_the_trial_once_and_returns_the_real_state() {
    let (mut svc, mut core) = (service(30), Core::new(false, vec![]));
    let s = provision(&mut svc, &mut core);
    assert_eq!(s.kind, SubscriptionKind::TrialActive);
    assert_eq!(core.created(), 1);
    let calls = core.calls.len();
    assert_eq!(calls, 8, "state: 1, trial: 5, state: 2");
    assert_eq!(provision(&mut svc, &mut core).kind, SubscriptionKind::TrialActive);
    assert_eq!(core.calls.len(), calls, "the state is cached");
}

#[test]
fn zero_trial_days_disables_provisioning() {
    let (mut svc, mut core) = (service(0), Core::new(false, vec![]));
    let s = provision(&mut svc, &mut core);
    assert_eq!(s.kind, SubscriptionKind::NeverSubscribed);
    assert_eq!(core.created(), 0);
}

#[test]
fn a_trial_lasts_its_days() {
    let (mut svc, mut core) = (service(45), Core::new(false, vec![]));
    ensure_trial(&mut svc, &mut core).unwrap();
    let request = core
        .calls
        .iter()
        .find(|c| matches!(c, Call::CreateSubscription { .. }))
        .map(|c| svc.client.request_for(c).unwrap())
        .unwrap();
    let sent = match request.body {
        RequestBody::CreateSubscription(body) => body.trial_ends_at,
        other => panic!("expected a subscription, got {other:?}"),
    };
    let rows = [sub("new", "trialing", sent)];
    let end = now().checked_add_days(45).unwrap();
    let before = Timestamp { secs: end.secs - 1, nanos: 0 };
    assert_eq!(resolve_state(&rows, before).kind, SubscriptionKind::TrialActive);
    assert_eq!(resolve_state(&rows, end).kind, SubscriptionKind::TrialExpired);
}

#[test]
fn provisioning_starts_from_a_cached_state_too() {
    let (mut svc, mut core) = (service(30), Core::new(true, vec![]));
    assert_eq!(state(&mut svc, &mut core, 0).kind, SubscriptionKind::NeverSubscribed);
    assert_eq!(provision(&mut svc, &mut core).kind, SubscriptionKind::TrialActive);
}

#[test]
fn an_addon_row_is_not_a_subscription_to_the_plan() {
    let addon = Subscription { kind: Some("addon".into()), ..sub("a", "active", None) };
    let (mut svc, mut core) = (service(30), Core::new(true, vec![addon]));
    assert!(matches!(ensure_trial(&mut svc, &mut core).unwrap(), TrialOutcome::Created(_)));
    assert_eq!(core.created(), 1);
}

// -- checkout --------------------------------------------------------------

fn assert_checked_out(core: &Core, id: &str) {
    let last = core.calls.last().unwrap();
    match last {
        Call::InitiateCheckout { subscription_id, provider, customer_email, back_url, success_url } => {
            assert_eq!(subscription_id, id);
            assert_eq!(provider, "mercadopago");
            assert_eq!(customer_email, "owner@garage.io");
            assert_eq!((back_url.as_str(), success_url), ("/plan", &None));
        }
        other => panic!("expected a checkout, got {other:?}"),
    }
}

#[test]
fn checkout_reuses_an_expired_trial_and_returns_the_payment_url() {
    let (mut svc, mut core) =
        (service(30), Core::new(true, vec![sub("s1", "trialing", Some(in_days(-3)))]));
    let out = checkout(&mut svc, &mut core);
    assert_eq!(out, CheckoutOutcome::Url("https://mp/init".into()));
    assert_eq!(core.created(), 0);
    assert_checked_out(&core, "s1");
}

#[test]
fn checkout_after_a_cancellation_creates_a_new_subscription_without_a_trial() {
    let (mut svc, mut core) = (service(30), Core::new(true, vec![sub("old", "cancelled", None)]));
    checkout(&mut svc, &mut core);
    assert_eq!(core.created(), 1);
    assert!(core.calls.iter().any(|c| matches!(
        c,
        Call::CreateSubscription { trial_ends_at: None, .. }
    )));
    assert_checked_out(&core, "new");
}

#[test]
fn a_declined_checkout_is_returned_not_raised() {
    let (mut svc, mut core) = (service(30), Core::new(true, vec![sub("s1", "incomplete", None)]));
    core.checkout =
        CheckoutResponse { checkout_url: None, reason: Some("provider_unreachable".into()) };
    let out = checkout(&mut svc, &mut core);
    assert_eq!(out, CheckoutOutcome::Declined(CheckoutDeclined::ProviderUnreachable));
    assert_checked_out(&core, "s1");
}

#[test]
fn the_payer_may_have_another_email() {
    let (mut svc, mut core) = (service(30), Core::new(true, vec![sub("s1", "active", None)]));
    let start = svc.checkout(
        who(),
        "/plan".into(),
        Some("https://app/x".into()),
        Some("payer@x.io".into()),
    );
    run(&mut svc, &mut core, start, 0).unwrap();
    assert!(matches!(core.calls.last().unwrap(),
        Call::InitiateCheckout { customer_email, success_url, .. }
            if customer_email == "payer@x.io" && success_url.as_deref() == Some("https://app/x")));
}

#[test]
fn checkout_and_cancel_invalidate_the_cached_state() {
    let (mut svc, mut core) = (service(30), Core::new(true, vec![sub("s1", "incomplete", None)]));
    state(&mut svc, &mut core, 0);
    assert!(svc.cache.get("co-1", 0).is_some());
    checkout(&mut svc, &mut core);
    assert!(svc.cache.get("co-1", 0).is_none(), "checkout must drop the cached state");
    state(&mut svc, &mut core, 0);
    cancel(&mut svc, &mut core, None).unwrap();
    assert!(svc.cache.get("co-1", 0).is_none(), "cancel must drop the cached state");
}

// -- cancel ----------------------------------------------------------------

#[test]
fn cancel_targets_the_open_subscription_and_forwards_the_reason() {
    let rows = vec![sub("gone", "cancelled", None), sub("live", "active", None)];
    let (mut svc, mut core) = (service(30), Core::new(true, rows));
    cancel(&mut svc, &mut core, Some("moving")).unwrap();
    assert!(matches!(core.calls.last().unwrap(),
        Call::CancelSubscription { subscription_id, reason }
            if subscription_id == "live" && reason.as_deref() == Some("moving")));
}

#[test]
fn cancel_says_what_is_missing() {
    let (mut svc, mut core) = (service(30), Core::new(false, vec![]));
    assert!(matches!(
        cancel(&mut svc, &mut core, None),
        Err(BillingError::NotFound("customer"))
    ));
    let (mut svc, mut core) = (service(30), Core::new(true, vec![sub("gone", "cancelled", None)]));
    assert!(matches!(
        cancel(&mut svc, &mut core, None),
        Err(BillingError::NotFound("subscription"))
    ));
}

// -- conversations -----------------------------------------------------------

#[test]
fn a_failed_call_ends_the_operation_and_leaves_the_cache() {
    let (mut svc, mut core) = (service(30), Core::new(true, vec![sub("s1", "active", None)]));
    state(&mut svc, &mut core, 0);
    let flow = Flow::Cancelling { company_id: "co-1".into() };
    let error = match received("cancel subscription", Ok(500)) {
        Received::Refused { status } => refused("cancel subscription", status, None),
        other => panic!("expected a refusal, got {other:?}"),
    };
    match svc.resume(flow, Err(error), now(), 0) {
        Progress::Done(Err(BillingError::Upstream { op, status, .. })) => {
            assert_eq!((op, status), ("cancel subscription", 500))
        }
        other => panic!("expected the error, got {other:?}"),
    }
    assert!(svc.cache.get("co-1", 0).is_some());
}

#[test]
fn an_operation_takes_only_the_reply_it_waits_for() {
    let svc = service(30);
    let flow = Flow::StateRows { company_id: "co-1".into(), provision: None };
    assert!(!svc.is_ready(&flow, &Ok(Reply::Cancelled), now()));
    assert!(svc.is_ready(&flow, &Ok(Reply::Subscriptions(vec![])), now()));
    assert!(svc.is_ready(&flow, &Err(BillingError::Unauthorized), now()));
    let no_time = Timestamp { secs: i64::MAX, nanos: 0 };
    assert!(!svc.is_ready(&flow, &Ok(Reply::Subscriptions(vec![])), no_time));
}

#[test]
fn a_trial_beyond_the_calendar_is_not_ready_unless_one_exists() {
    let svc = service(i64::MAX);
    let rows = |goal| Flow::Rows {
        who: who(),
        goal,
        customer: Customer { id: "c1".into(), email: None, external_id: None },
        plan: plan(),
    };
    let trial = || rows(huggian_client::billing::service::Goal::Trial { provisioning: false });
    assert!(!svc.is_ready(&trial(), &Ok(Reply::Subscriptions(vec![])), now()));
    let existing = Ok(Reply::Subscriptions(vec![sub("s1", "cancelled", None)]));
    assert!(svc.is_ready(&trial(), &existing, now()));
    let pay = rows(huggian_client::billing::service::Goal::Checkout {
        back_url: "/".into(),
        success_url: None,
        payer_email: None,
    });
    assert!(svc.is_ready(&pay, &Ok(Reply::Subscriptions(vec![])), now()));
}

#[test]
fn the_configuration_has_its_defaults() {
    let svc = service(30);
    assert_eq!(svc.config().plan_slug, "cochera");
    assert_eq!(svc.config().trial_days, 30);
    assert_eq!(svc.config().provider, "mercadopago");
    assert_eq!(svc.config().cache_ttl, 60 * SEC);
    assert_eq!(svc.client.cfg.read_timeout, 5 * SEC);
}
