//! What the four routes of every product's billing page answer:
//!
//! ```text
//! GET  /subscription   state (provisions the trial on first use)
//! GET  /plans          the plans on sale
//! POST /checkout       {back_url?, payer_email?} -> {checkout_url}
//! POST /cancel                                   -> {status:"cancelled"}
//! ```
//!
//! Errors are `{"error": CODE}` with stable codes, so a frontend can translate.

use crate::billing::error::BillingError;
use crate::billing::state::{SubscriptionKind, SubscriptionState};
use crate::billing::types::{CheckoutDeclined, CheckoutOutcome, Plan};
use crate::time::Timestamp;
use vstd::prelude::*;

verus! {

/// An error response: a status and a stable, screaming-snake code.
#[derive(Debug, Clone, Copy, PartialEq, Eq)]
pub struct HttpError {
    pub status: u16,
    pub code: &'static str,
}

impl HttpError {
    #[must_use]
    pub fn new(status: u16, code: &'static str) -> (error: Self)
        ensures
            error == (HttpError { status, code }),
    {
        HttpError { status, code }
    }

    /// What an identity source returns for a missing or invalid credential.
    #[must_use]
    pub fn unauthorized() -> (error: Self)
        ensures
            error == (HttpError { status: 401, code: "UNAUTHORIZED" }),
    {
        Self::new(401, "UNAUTHORIZED")
    }
}

impl vstd::std_specs::convert::FromSpecImpl<BillingError> for HttpError {
    open spec fn obeys_from_spec() -> bool {
        true
    }

    open spec fn from_spec(e: BillingError) -> Self {
        match e {
            BillingError::NotFound(_) => HttpError { status: 404, code: "SUBSCRIPTION_NOT_FOUND" },
            BillingError::PlanUnavailable(_) => HttpError {
                status: 503,
                code: "SUBSCRIPTION_PLAN_UNAVAILABLE",
            },
            _ => HttpError { status: 502, code: "BILLING_UPSTREAM_ERROR" },
        }
    }
}

impl From<BillingError> for HttpError {
    fn from(e: BillingError) -> (error: Self) {
        match e {
            BillingError::NotFound(_) => Self::new(404, "SUBSCRIPTION_NOT_FOUND"),
            BillingError::PlanUnavailable(_) => Self::new(503, "SUBSCRIPTION_PLAN_UNAVAILABLE"),
            _ => Self::new(502, "BILLING_UPSTREAM_ERROR"),
        }
    }
}

/// What `GET /subscription` answers.
#[derive(Debug, Clone)]
pub struct SubscriptionView {
    pub status: String,
    pub state: SubscriptionKind,
    pub plan: Option<String>,
    pub trial_ends_at: Option<Timestamp>,
    pub trial_days_remaining: Option<i64>,
    pub grace_ends_at: Option<Timestamp>,
}

impl SubscriptionView {
    pub fn new(s: SubscriptionState, now: Timestamp) -> (view: Self)
        requires
            s@.in_trial() && s.trial_ends_at is Some ==> now.valid() && s.trial_ends_at->0.valid(),
        ensures
            view.status == s.raw_status,
            view.state == s.kind,
            view.plan == s.plan_slug,
            view.trial_ends_at == s.trial_ends_at,
            view.grace_ends_at == s.grace_ends_at,
            match view.trial_days_remaining {
                Some(days) => s@.trial_days(now) == Some(days as int),
                None => s@.trial_days(now) is None,
            },
    {
        let trial_days_remaining = s.trial_days_remaining(now);
        SubscriptionView {
            status: s.raw_status,
            state: s.kind,
            plan: s.plan_slug,
            trial_ends_at: s.trial_ends_at,
            trial_days_remaining,
            grace_ends_at: s.grace_ends_at,
        }
    }
}

/// A plan as `GET /plans` lists it.
#[derive(Debug, Clone)]
pub struct PlanView {
    /// The slug: what the product and its frontend refer to a plan by.
    pub id: String,
    pub name: String,
    pub price_cents: i64,
    pub interval: &'static str,
}

impl vstd::std_specs::convert::FromSpecImpl<Plan> for PlanView {
    open spec fn obeys_from_spec() -> bool {
        true
    }

    open spec fn from_spec(p: Plan) -> Self {
        PlanView {
            id: p.slug,
            name: p.name,
            price_cents: p.price_cents,
            interval: if p.is_yearly() {
                "year"
            } else {
                "month"
            },
        }
    }
}

impl From<Plan> for PlanView {
    fn from(p: Plan) -> (view: Self) {
        let interval = p.normalized_interval();
        PlanView { id: p.slug, name: p.name, price_cents: p.price_cents, interval }
    }
}

/// What `POST /checkout` takes.
#[derive(Debug, Clone)]
pub struct CheckoutBody {
    pub back_url: Option<String>,
    pub payer_email: Option<String>,
}

impl CheckoutBody {
    /// Where the payer comes back to: the root unless the body says otherwise.
    pub fn back_url(&self) -> (url: &str)
        ensures
            url@ == match self.back_url {
                Some(url) => url@,
                None => "/"@,
            },
    {
        match &self.back_url {
            Some(url) => url.as_str(),
            None => "/",
        }
    }
}

/// The error that a declined checkout is answered with.
pub open spec fn declined_error(why: CheckoutDeclined) -> HttpError {
    match why {
        CheckoutDeclined::AlreadyPending => HttpError {
            status: 409,
            code: "SUBSCRIPTION_PAYMENT_ALREADY_SCHEDULED",
        },
        CheckoutDeclined::ProviderUnreachable => HttpError {
            status: 409,
            code: "MERCADOPAGO_UNREACHABLE",
        },
        CheckoutDeclined::StalePreapprovalCancelFailed => HttpError {
            status: 409,
            code: "MERCADOPAGO_PREVIOUS_SUBSCRIPTION_NOT_CANCELLED",
        },
        CheckoutDeclined::Other(_) => HttpError { status: 502, code: "BILLING_UPSTREAM_ERROR" },
    }
}

/// The link that `POST /checkout` answers with, or its error.
pub fn checkout_url(outcome: CheckoutOutcome) -> (answer: Result<String, HttpError>)
    ensures
        answer == match outcome {
            CheckoutOutcome::Url(url) => Ok(url),
            CheckoutOutcome::Declined(why) => Err(declined_error(why)),
        },
{
    match outcome {
        CheckoutOutcome::Url(url) => Ok(url),
        CheckoutOutcome::Declined(why) => Err(
            match why {
                CheckoutDeclined::AlreadyPending => HttpError::new(
                    409,
                    "SUBSCRIPTION_PAYMENT_ALREADY_SCHEDULED",
                ),
                CheckoutDeclined::ProviderUnreachable => HttpError::new(
                    409,
                    "MERCADOPAGO_UNREACHABLE",
                ),
                CheckoutDeclined::StalePreapprovalCancelFailed => HttpError::new(
                    409,
                    "MERCADOPAGO_PREVIOUS_SUBSCRIPTION_NOT_CANCELLED",
                ),
                CheckoutDeclined::Other(_) => HttpError::new(502, "BILLING_UPSTREAM_ERROR"),
            },
        ),
    }
}

/// Each billing error has its status and its stable code: what is missing, what is not on
/// sale, and anything else that goes wrong upstream.
pub proof fn law_codes_of_billing_errors(e: BillingError)
    ensures
        ({
            let answer = <HttpError as vstd::std_specs::convert::FromSpec<BillingError>>::from_spec(
                e,
            );
            &&& answer.status == 404 <==> e is NotFound
            &&& answer.status == 503 <==> e is PlanUnavailable
            &&& answer.status == 502 <==> e is Unauthorized || e is Upstream || e is Transport
                || e is Decode
            &&& e is NotFound ==> answer.code == "SUBSCRIPTION_NOT_FOUND"
            &&& e is PlanUnavailable ==> answer.code == "SUBSCRIPTION_PLAN_UNAVAILABLE"
            &&& answer.status == 502 ==> answer.code == "BILLING_UPSTREAM_ERROR"
        }),
{
}

/// A declined checkout is a conflict with a code of its own, unless its reason is unknown.
pub proof fn law_codes_of_declined_checkouts(why: CheckoutDeclined)
    ensures
        declined_error(why).status == 409 <==> !(why is Other),
        why is AlreadyPending ==> declined_error(why).code
            == "SUBSCRIPTION_PAYMENT_ALREADY_SCHEDULED",
        why is ProviderUnreachable ==> declined_error(why).code == "MERCADOPAGO_UNREACHABLE",
        why is StalePreapprovalCancelFailed ==> declined_error(why).code
            == "MERCADOPAGO_PREVIOUS_SUBSCRIPTION_NOT_CANCELLED",
        why is Other ==> declined_error(why) == (HttpError {
            status: 502,
            code: "BILLING_UPSTREAM_ERROR",
        }),
{
}

/// A listed plan goes by its slug and keeps its name and price; its interval is a year or a
/// month.
pub proof fn law_listed_plans(p: Plan)
    ensures
        ({
            let view = <PlanView as vstd::std_specs::convert::FromSpec<Plan>>::from_spec(p);
            &&& view.id == p.slug
            &&& view.name == p.name
            &&& view.price_cents == p.price_cents
            &&& p.interval@ == "year"@ ==> view.interval == "year"
            &&& p.interval@ != "year"@ ==> view.interval == "month"
        }),
{
}

/// What a billing page is told of a state: its status, kind, plan and dates as they are, and
/// the whole days left of a trial, which are never below zero.
pub proof fn law_subscription_is_told_whole(
    s: SubscriptionState,
    now: Timestamp,
    view: SubscriptionView,
)
    requires
        call_ensures(SubscriptionView::new, (s, now), view),
    ensures
        view.status@ == s.raw_status@,
        view.state == s.kind,
        view.plan == s.plan_slug,
        view.trial_ends_at == s.trial_ends_at,
        view.grace_ends_at == s.grace_ends_at,
        view.trial_days_remaining is Some <==> s.trial_ends_at is Some && (s.kind
            == SubscriptionKind::TrialActive || s.kind == SubscriptionKind::TrialExpired),
        view.trial_days_remaining matches Some(days) ==> {
            let left = s.trial_ends_at->0.whole_days_since(now);
            &&& days >= 0
            &&& left >= 0 ==> days == left
            &&& left <= 0 ==> days == 0
        },
{
}

/// A link is answered as it is; a declined checkout is answered with an error, told by its
/// reason; a missing credential is answered 401.
pub proof fn law_checkout_answers(
    outcome: CheckoutOutcome,
    answer: Result<String, HttpError>,
    missing: HttpError,
)
    requires
        call_ensures(checkout_url, (outcome,), answer),
        call_ensures(HttpError::unauthorized, (), missing),
    ensures
        outcome matches CheckoutOutcome::Url(url) ==> (answer matches Ok(link) && link@ == url@),
        outcome matches CheckoutOutcome::Declined(why) ==> {
            &&& answer matches Err(error)
            &&& error.status == 409 <==> !(why is Other)
            &&& error.status == 502 <==> why is Other
            &&& why is AlreadyPending <==> error.code == "SUBSCRIPTION_PAYMENT_ALREADY_SCHEDULED"
            &&& why is ProviderUnreachable <==> error.code == "MERCADOPAGO_UNREACHABLE"
            &&& why is StalePreapprovalCancelFailed <==> error.code
                == "MERCADOPAGO_PREVIOUS_SUBSCRIPTION_NOT_CANCELLED"
            &&& why is Other <==> error.code == "BILLING_UPSTREAM_ERROR"
        },
        missing.status == 401,
        missing.code == "UNAUTHORIZED",
{
    reveal_strlit("SUBSCRIPTION_PAYMENT_ALREADY_SCHEDULED");
    reveal_strlit("MERCADOPAGO_UNREACHABLE");
    reveal_strlit("MERCADOPAGO_PREVIOUS_SUBSCRIPTION_NOT_CANCELLED");
    reveal_strlit("BILLING_UPSTREAM_ERROR");
    assert("SUBSCRIPTION_PAYMENT_ALREADY_SCHEDULED"@.len() == 38);
    assert("MERCADOPAGO_UNREACHABLE"@.len() == 23);
    assert("MERCADOPAGO_PREVIOUS_SUBSCRIPTION_NOT_CANCELLED"@.len() == 47);
    assert("BILLING_UPSTREAM_ERROR"@.len() == 22);
}

/// A payer comes back to where the body says, and to the root where it says nothing.
pub proof fn law_where_payers_come_back(body: &CheckoutBody, url: &str)
    requires
        call_ensures(CheckoutBody::back_url, (body,), url),
    ensures
        body.back_url matches Some(wanted) ==> url@ == wanted@,
        body.back_url is None ==> url@ == "/"@,
{
}

} // verus!
