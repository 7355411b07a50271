//! The subscription flow itself — the part every product re-implemented.
//!
//! `BillingService` = [`BillingClient`] + [`StateCache`] + a product's
//! [`ServiceConfig`] (plan slug, trial length). It is single-plan by design:
//! products that sell one base plan (cochera) need nothing more, and plan
//! changes / add-ons stay in the product that has them (ez-commerce).
//!
//! Trials are created by the *caller*, not by Huggian (core has no per-product
//! trial setting): [`BillingService::ensure_trial`] passes `trialEndsAt`, and the
//! period stays the plan's own (core rejects any other period).
//!
//! An operation is a conversation with core: it starts with a [`Progress`], and as
//! long as that is an [`Progress::Ask`], the caller makes the call and hands the
//! reply to [`BillingService::resume`].

use crate::billing::cache::{StateCache, DEFAULT_TTL};
use crate::billing::client::{BillingClient, Call};
use crate::billing::error::BillingError;
use crate::billing::state::{resolve_state, SubscriptionKind, SubscriptionState};
use crate::billing::types::{CheckoutOutcome, CheckoutResponse, Customer, Plan, Subscription};
use crate::text::same_text;
use crate::time::{Nanos, Timestamp};
use vstd::prelude::*;

verus! {

/// Who is being billed. The product supplies it: Huggian needs a name and email
/// to create the customer, and `company_id` becomes the customer's `external_id`.
#[derive(Debug, Clone)]
pub struct CompanyIdentity {
    pub company_id: String,
    pub name: String,
    pub email: String,
}

#[derive(Debug, Clone)]
pub struct ServiceConfig {
    /// The base plan this product sells (`GET /v1/plans` slug).
    pub plan_slug: String,
    /// Trial length granted on first use. `0` disables trial provisioning.
    pub trial_days: i64,
    pub provider: String,
    pub cache_ttl: Nanos,
}

impl ServiceConfig {
    #[must_use]
    pub fn new(plan_slug: &str, trial_days: i64) -> (cfg: Self)
        ensures
            cfg.plan_slug@ == plan_slug@,
            cfg.trial_days == trial_days,
            cfg.provider@ == "mercadopago"@,
            cfg.cache_ttl == DEFAULT_TTL,
    {
        ServiceConfig {
            plan_slug: plan_slug.to_string(),
            trial_days,
            provider: "mercadopago".to_string(),
            cache_ttl: DEFAULT_TTL,
        }
    }
}

#[derive(Debug, Clone)]
pub enum TrialOutcome {
    /// A new trialing subscription was created.
    Created(Subscription),
    /// The customer already had a subscription on this plan (any status). A
    /// cancelled or expired one is returned as-is: no second free trial.
    Existing(Subscription),
}

/// What core answered to a [`Call`].
#[derive(Debug)]
pub enum Reply {
    Found(Option<Customer>),
    Customer(Customer),
    Plans(Vec<Plan>),
    /// All rows of a customer, as core lists them.
    Subscriptions(Vec<Subscription>),
    Subscription(Subscription),
    Checkout(CheckoutResponse),
    Cancelled,
}

/// What an operation on the customer's subscription is after.
#[derive(Debug)]
pub enum Goal {
    /// A trial; while provisioning, the company's state after it.
    Trial { provisioning: bool },
    /// A payment link.
    Checkout { back_url: String, success_url: Option<String>, payer_email: Option<String> },
}

/// An operation that waits for a reply: which one, and what it needs then.
#[derive(Debug)]
pub enum Flow {
    Plans,
    /// The customer whose state is asked for. With an identity, a company that never
    /// subscribed is given its trial.
    StateCustomer { company_id: String, provision: Option<CompanyIdentity> },
    StateRows { company_id: String, provision: Option<CompanyIdentity> },
    /// The customer of the company, who may not exist yet.
    Customer { who: CompanyIdentity, goal: Goal },
    NewCustomer { who: CompanyIdentity, goal: Goal },
    Plan { who: CompanyIdentity, goal: Goal, customer: Customer },
    Rows { who: CompanyIdentity, goal: Goal, customer: Customer, plan: Plan },
    NewTrial { who: CompanyIdentity, provisioning: bool },
    NewSubscription {
        who: CompanyIdentity,
        back_url: String,
        success_url: Option<String>,
        payer_email: Option<String>,
    },
    Checkout { company_id: String },
    CancelCustomer { company_id: String, reason: Option<String> },
    CancelRows { company_id: String, reason: Option<String> },
    Cancelling { company_id: String },
}

/// What an operation comes to.
#[derive(Debug)]
pub enum Output {
    Plans(Vec<Plan>),
    State(SubscriptionState),
    Trial(TrialOutcome),
    Checkout(CheckoutOutcome),
    Cancelled,
}

/// How far an operation has come.
#[derive(Debug)]
pub enum Progress {
    /// It needs a call to be made, and goes on with the reply.
    Ask { call: Call, then: Flow },
    Done(Result<Output, BillingError>),
}

impl Call {
    /// Whether a reply is of the kind that answers this call.
    pub open spec fn answered_by(self, reply: Reply) -> bool {
        match self {
            Call::FindCustomer { .. } => reply is Found,
            Call::CreateCustomer { .. } => reply is Customer,
            Call::ListPlans => reply is Plans,
            Call::CustomerSubscriptions { .. } => reply is Subscriptions,
            Call::CreateSubscription { .. } => reply is Subscription,
            Call::InitiateCheckout { .. } => reply is Checkout,
            Call::CancelSubscription { .. } => reply is Cancelled,
        }
    }
}

impl Flow {
    /// Whether a reply is of the kind that the operation waits for.
    pub open spec fn awaits(self, reply: Reply) -> bool {
        match self {
            Flow::Plans => reply is Plans,
            Flow::StateCustomer { .. } => reply is Found,
            Flow::StateRows { .. } => reply is Subscriptions,
            Flow::Customer { .. } => reply is Found,
            Flow::NewCustomer { .. } => reply is Customer,
            Flow::Plan { .. } => reply is Plans,
            Flow::Rows { .. } => reply is Subscriptions,
            Flow::NewTrial { .. } => reply is Subscription,
            Flow::NewSubscription { .. } => reply is Subscription,
            Flow::Checkout { .. } => reply is Checkout,
            Flow::CancelCustomer { .. } => reply is Found,
            Flow::CancelRows { .. } => reply is Subscriptions,
            Flow::Cancelling { .. } => reply is Cancelled,
        }
    }
}

// -- rules ------------------------------------------------------------------------

/// The first plan with a slug.
pub open spec fn plan_with_slug(plans: Seq<Plan>, slug: Seq<char>) -> Option<Plan>
    decreases plans.len(),
{
    if plans.len() == 0 {
        None
    } else if plans[0].slug@ == slug {
        Some(plans[0])
    } else {
        plan_with_slug(plans.drop_first(), slug)
    }
}

/// Whether a row is a plan's, on the given plan if one is given, and open if only an
/// open one will do.
pub open spec fn is_wanted(row: Subscription, plan_id: Option<Seq<char>>, open_only: bool) -> bool {
    &&& row.plan_row()
    &&& plan_id matches Some(id) ==> row.plan_id@ == id
    &&& open_only ==> row.open()
}

/// The first row that is wanted.
pub open spec fn wanted_row(
    rows: Seq<Subscription>,
    plan_id: Option<Seq<char>>,
    open_only: bool,
) -> Option<Subscription>
    decreases rows.len(),
{
    if rows.len() == 0 {
        None
    } else if is_wanted(rows[0], plan_id, open_only) {
        Some(rows[0])
    } else {
        wanted_row(rows.drop_first(), plan_id, open_only)
    }
}

impl ServiceConfig {
    /// The call that creates a subscription to a plan from `now` on.
    pub open spec fn create_call(
        self,
        customer: Customer,
        plan: Plan,
        now: Timestamp,
        trial_ends_at: Option<Timestamp>,
    ) -> Call {
        Call::CreateSubscription {
            customer_id: customer.id,
            plan_id: plan.id,
            payment_provider: self.provider,
            period_start: now,
            period_end: plan.period_end(now)->0,
            trial_ends_at,
        }
    }

    /// The call that asks for a payment link.
    pub open spec fn checkout_call(
        self,
        who: CompanyIdentity,
        subscription: Subscription,
        back_url: String,
        success_url: Option<String>,
        payer_email: Option<String>,
    ) -> Call {
        Call::InitiateCheckout {
            subscription_id: subscription.id,
            provider: self.provider,
            customer_email: match payer_email {
                Some(email) => email,
                None => who.email,
            },
            back_url,
            success_url,
        }
    }

    /// Where a company whose state is known goes from there: a company that never
    /// subscribed gets its trial, if one is to be given.
    pub open spec fn concluded(
        self,
        state: SubscriptionState,
        provision: Option<CompanyIdentity>,
    ) -> Progress {
        match provision {
            Some(who) if state.kind == SubscriptionKind::NeverSubscribed && self.trial_days > 0 =>
                Progress::Ask {
                call: Call::FindCustomer { external_id: who.company_id },
                then: Flow::Customer { who, goal: Goal::Trial { provisioning: true } },
            },
            _ => Progress::Done(Ok(Output::State(state))),
        }
    }

    /// Where the question for a company's state leads: to what is cached, or to core.
    pub open spec fn looked_up(
        self,
        cache: crate::billing::cache::StateCacheView,
        company_id: String,
        provision: Option<CompanyIdentity>,
        tick: Nanos,
    ) -> Progress {
        match cache.lookup(company_id@, tick) {
            Some(state) => self.concluded(state, provision),
            None => Progress::Ask {
                call: Call::FindCustomer { external_id: company_id },
                then: Flow::StateCustomer { company_id, provision },
            },
        }
    }
}

/// The moment of a step: what the service holds, the wall clock and the monotonic
/// clock.
pub struct Moment {
    pub cfg: ServiceConfig,
    pub cache: crate::billing::cache::StateCacheView,
    pub now: Timestamp,
    pub tick: Nanos,
}

impl Moment {
    /// Whether a company's state was found out, stored and concluded from.
    pub open spec fn settles(
        self,
        company_id: String,
        provision: Option<CompanyIdentity>,
        found: crate::billing::state::SubscriptionStateView,
        after: crate::billing::cache::StateCacheView,
        progress: Progress,
    ) -> bool {
        exists|state: SubscriptionState|
            {
                &&& state@ == found
                &&& after == #[trigger] self.cache.stored(company_id@, state, self.tick)
                &&& progress == self.cfg.concluded(state, provision)
            }
    }

    /// What follows once the customer of an operation is known: the plan is looked
    /// for.
    pub open spec fn with_customer(self, who: CompanyIdentity, goal: Goal, customer: Customer) -> Progress {
        Progress::Ask { call: Call::ListPlans, then: Flow::Plan { who, goal, customer } }
    }

    /// What follows once the plan of an operation is known.
    pub open spec fn with_plans(
        self,
        who: CompanyIdentity,
        goal: Goal,
        customer: Customer,
        plans: Seq<Plan>,
    ) -> Progress {
        match plan_with_slug(plans, self.cfg.plan_slug@) {
            Some(plan) => Progress::Ask {
                call: Call::CustomerSubscriptions { customer_id: customer.id },
                then: Flow::Rows { who, goal, customer, plan },
            },
            None => Progress::Done(Err(BillingError::PlanUnavailable(self.cfg.plan_slug))),
        }
    }

    /// What follows once the rows of a customer who is after a trial are known: any
    /// subscription to the plan stands in the way of a new trial.
    pub open spec fn with_trial_rows(
        self,
        who: CompanyIdentity,
        provisioning: bool,
        customer: Customer,
        plan: Plan,
        rows: Seq<Subscription>,
    ) -> Progress {
        match wanted_row(rows, Some(plan.id@), false) {
            Some(existing) => if provisioning {
                self.cfg.looked_up(self.cache, who.company_id, None, self.tick)
            } else {
                Progress::Done(Ok(Output::Trial(TrialOutcome::Existing(existing))))
            },
            None => Progress::Ask {
                call: self.cfg.create_call(
                    customer,
                    plan,
                    self.now,
                    Some(self.now.days_later(self.cfg.trial_days as int)->0),
                ),
                then: Flow::NewTrial { who, provisioning },
            },
        }
    }

    /// What follows once the rows of a customer who is after a payment link are
    /// known: an open subscription to the plan is paid for, or a new one without a
    /// trial.
    pub open spec fn with_checkout_rows(
        self,
        who: CompanyIdentity,
        back_url: String,
        success_url: Option<String>,
        payer_email: Option<String>,
        customer: Customer,
        plan: Plan,
        rows: Seq<Subscription>,
    ) -> Progress {
        match wanted_row(rows, Some(plan.id@), true) {
            Some(open) => Progress::Ask {
                call: self.cfg.checkout_call(who, open, back_url, success_url, payer_email),
                then: Flow::Checkout { company_id: who.company_id },
            },
            None => Progress::Ask {
                call: self.cfg.create_call(customer, plan, self.now, None),
                then: Flow::NewSubscription { who, back_url, success_url, payer_email },
            },
        }
    }

    /// Whether an operation goes on as it should with a reply: `after` is what is
    /// then cached, and `progress` how far the operation has come. A failed call ends
    /// it and leaves the cache as it is.
    pub open spec fn resumes(
        self,
        flow: Flow,
        reply: Result<Reply, BillingError>,
        after: crate::billing::cache::StateCacheView,
        progress: Progress,
    ) -> bool {
        match reply {
            Err(e) => after == self.cache && progress == Progress::Done(Err(e)),
            Ok(reply) => self.continues(flow, reply, after, progress),
        }
    }

    /// Whether an operation goes on as it should when its call succeeded.
    pub open spec fn continues(
        self,
        flow: Flow,
        reply: Reply,
        after: crate::billing::cache::StateCacheView,
        progress: Progress,
    ) -> bool {
        match flow {
            Flow::Plans => after == self.cache && progress == Progress::Done(
                Ok(Output::Plans(reply->Plans_0)),
            ),
            Flow::StateCustomer { company_id, provision } => match reply->Found_0 {
                None => self.settles(
                    company_id,
                    provision,
                    crate::billing::state::SubscriptionStateView::never_subscribed(),
                    after,
                    progress,
                ),
                Some(customer) => after == self.cache && progress == (Progress::Ask {
                    call: Call::CustomerSubscriptions { customer_id: customer.id },
                    then: Flow::StateRows { company_id, provision },
                }),
            },
            Flow::StateRows { company_id, provision } => self.settles(
                company_id,
                provision,
                crate::billing::state::resolved(reply->Subscriptions_0@, self.now),
                after,
                progress,
            ),
            Flow::Customer { who, goal } => after == self.cache && progress
                == match reply->Found_0 {
                Some(customer) => self.with_customer(who, goal, customer),
                None => Progress::Ask {
                    call: Call::CreateCustomer {
                        external_id: who.company_id,
                        name: who.name,
                        email: who.email,
                    },
                    then: Flow::NewCustomer { who, goal },
                },
            },
            Flow::NewCustomer { who, goal } => after == self.cache && progress
                == self.with_customer(who, goal, reply->Customer_0),
            Flow::Plan { who, goal, customer } => after == self.cache && progress
                == self.with_plans(who, goal, customer, reply->Plans_0@),
            Flow::Rows { who, goal, customer, plan } => after == self.cache && progress
                == match goal {
                Goal::Trial { provisioning } => self.with_trial_rows(
                    who,
                    provisioning,
                    customer,
                    plan,
                    reply->Subscriptions_0@,
                ),
                Goal::Checkout { back_url, success_url, payer_email } => self.with_checkout_rows(
                    who,
                    back_url,
                    success_url,
                    payer_email,
                    customer,
                    plan,
                    reply->Subscriptions_0@,
                ),
            },
            Flow::NewTrial { who, provisioning } => {
                &&& after == self.cache.without(who.company_id@)
                &&& progress == if provisioning {
                    self.cfg.looked_up(after, who.company_id, None, self.tick)
                } else {
                    Progress::Done(Ok(Output::Trial(TrialOutcome::Created(reply->Subscription_0))))
                }
            },
            Flow::NewSubscription { who, back_url, success_url, payer_email } => after == self.cache
                && progress == (Progress::Ask {
                call: self.cfg.checkout_call(
                    who,
                    reply->Subscription_0,
                    back_url,
                    success_url,
                    payer_email,
                ),
                then: Flow::Checkout { company_id: who.company_id },
            }),
            Flow::Checkout { company_id } => {
                &&& after == self.cache.without(company_id@)
                &&& progress matches Progress::Done(Ok(Output::Checkout(outcome)))
                &&& outcome@ == (reply->Checkout_0).outcome()
            },
            Flow::CancelCustomer { company_id, reason } => after == self.cache && progress
                == match reply->Found_0 {
                Some(customer) => Progress::Ask {
                    call: Call::CustomerSubscriptions { customer_id: customer.id },
                    then: Flow::CancelRows { company_id, reason },
                },
                None => Progress::Done(Err(BillingError::NotFound("customer"))),
            },
            Flow::CancelRows { company_id, reason } => after == self.cache && progress
                == match wanted_row(reply->Subscriptions_0@, None, true) {
                Some(open) => Progress::Ask {
                    call: Call::CancelSubscription { subscription_id: open.id, reason },
                    then: Flow::Cancelling { company_id },
                },
                None => Progress::Done(Err(BillingError::NotFound("subscription"))),
            },
            Flow::Cancelling { company_id } => after == self.cache.without(company_id@) && progress
                == Progress::Done(Ok(Output::Cancelled)),
        }
    }

    /// Whether the dates of a subscription that the step would create lie within the
    /// calendar.
    pub open spec fn datable(self, flow: Flow, reply: Result<Reply, BillingError>) -> bool {
        match (flow, reply) {
            (Flow::Rows { goal, plan, .. }, Ok(Reply::Subscriptions(rows))) => match goal {
                Goal::Trial { .. } => wanted_row(rows@, Some(plan.id@), false) is None
                    ==> plan.period_end(self.now) is Some && self.now.days_later(
                    self.cfg.trial_days as int,
                ) is Some,
                Goal::Checkout { .. } => wanted_row(rows@, Some(plan.id@), true) is None
                    ==> plan.period_end(self.now) is Some,
            },
            _ => true,
        }
    }

    /// Whether an operation can go on with a reply.
    pub open spec fn ready(self, flow: Flow, reply: Result<Reply, BillingError>) -> bool {
        &&& self.now.valid()
        &&& reply matches Ok(reply) ==> flow.awaits(reply)
        &&& self.datable(flow, reply)
    }
}

/// Finds the first plan with a slug.
fn find_plan(plans: &Vec<Plan>, slug: &str) -> (found: Option<usize>)
    ensures
        match found {
            Some(i) => i < plans@.len() && plan_with_slug(plans@, slug@) == Some(plans@[i as int]),
            None => plan_with_slug(plans@, slug@) is None,
        },
{
    let mut i: usize = 0;
    assert(plans@.skip(0) =~= plans@);
    while i < plans.len()
        invariant
            i <= plans@.len(),
            plan_with_slug(plans@.skip(i as int), slug@) == plan_with_slug(plans@, slug@),
        decreases plans@.len() - i,
    {
        assert(plans@.skip(i as int).drop_first() =~= plans@.skip(i + 1));
        if same_text(plans[i].slug.as_str(), slug) {
            return Some(i);
        }
        i = i + 1;
    }
    None
}

/// Finds the first row that is wanted.
fn find_row(rows: &Vec<Subscription>, plan_id: Option<&str>, open_only: bool) -> (found: Option<
    usize,
>)
    ensures
        match found {
            Some(i) => i < rows@.len() && wanted_row(rows@, plan_id.deep_view(), open_only) == Some(
                rows@[i as int],
            ),
            None => wanted_row(rows@, plan_id.deep_view(), open_only) is None,
        },
{
    let mut i: usize = 0;
    assert(rows@.skip(0) =~= rows@);
    while i < rows.len()
        invariant
            i <= rows@.len(),
            wanted_row(rows@.skip(i as int), plan_id.deep_view(), open_only) == wanted_row(
                rows@,
                plan_id.deep_view(),
                open_only,
            ),
        decreases rows@.len() - i,
    {
        assert(rows@.skip(i as int).drop_first() =~= rows@.skip(i + 1));
        let on_plan = match plan_id {
            Some(id) => same_text(rows[i].plan_id.as_str(), id),
            None => true,
        };
        if on_plan && rows[i].is_plan() && (!open_only || rows[i].is_open()) {
            return Some(i);
        }
        i = i + 1;
    }
    None
}

// -- service ----------------------------------------------------------------------

pub struct BillingService {
    pub client: BillingClient,
    pub cache: StateCache,
    pub cfg: ServiceConfig,
}

impl Progress {
    /// Whether the dates that are handed out lie within the calendar: those of a call,
    /// and those of a state.
    pub open spec fn dated(self) -> bool {
        match self {
            Progress::Ask { call, .. } => call.dated(),
            Progress::Done(Ok(Output::State(state))) => state.dated(),
            Progress::Done(_) => true,
        }
    }
}

impl BillingService {
    /// The service at a moment.
    pub open spec fn at(self, now: Timestamp, tick: Nanos) -> Moment {
        Moment { cfg: self.cfg, cache: self.cache@, now, tick }
    }

    #[must_use]
    pub fn new(client: BillingClient, cfg: ServiceConfig) -> (service: Self)
        ensures
            service.cache.wf(),
            service.client == client,
            service.cfg == cfg,
            service.cache@ == (crate::billing::cache::StateCacheView {
                ttl: cfg.cache_ttl,
                entries: Map::empty(),
            }),
    {
        BillingService { client, cache: StateCache::new(cfg.cache_ttl), cfg }
    }

    #[must_use]
    pub fn config(&self) -> (cfg: &ServiceConfig)
        ensures
            *cfg == self.cfg,
    {
        &self.cfg
    }

    /// The product's active plans (`cochera` stays out until it is activated).
    pub fn plans(&self) -> (progress: Progress)
        ensures
            progress == (Progress::Ask { call: Call::ListPlans, then: Flow::Plans }),
    {
        Progress::Ask { call: Call::ListPlans, then: Flow::Plans }
    }

    /// The company's state, cached per company. Read-only: never creates anything.
    pub fn state(&self, company_id: String, tick: Nanos) -> (progress: Progress)
        ensures
            progress == self.cfg.looked_up(self.cache@, company_id, None, tick),
            self.cache.wf() ==> progress.dated(),
    {
        self.look_up(company_id, None, tick)
    }

    /// Like [`state`](Self::state), but a company that has never subscribed gets
    /// its trial first (lazily, on first use), then its real state is returned.
    pub fn state_provisioning(&self, who: CompanyIdentity, tick: Nanos) -> (progress: Progress)
        ensures
            progress == self.cfg.looked_up(self.cache@, who.company_id, Some(who), tick),
            self.cache.wf() ==> progress.dated(),
    {
        self.look_up(who.company_id.clone(), Some(who), tick)
    }

    /// Find-or-create the customer, then start the trial unless they already have
    /// a subscription on this plan. Safe to call twice: core also dedupes.
    pub fn ensure_trial(&self, who: CompanyIdentity) -> (progress: Progress)
        ensures
            progress == (Progress::Ask {
                call: Call::FindCustomer { external_id: who.company_id },
                then: Flow::Customer { who, goal: Goal::Trial { provisioning: false } },
            }),
    {
        Progress::Ask {
            call: Call::FindCustomer { external_id: who.company_id.clone() },
            then: Flow::Customer { who, goal: Goal::Trial { provisioning: false } },
        }
    }

    /// A payment link for the plan. Reuses the customer's open subscription (an
    /// expired trial included); a cancelled one gets a fresh subscription, with no
    /// trial. `payer_email` defaults to the identity's email.
    pub fn checkout(
        &self,
        who: CompanyIdentity,
        back_url: String,
        success_url: Option<String>,
        payer_email: Option<String>,
    ) -> (progress: Progress)
        ensures
            progress == (Progress::Ask {
                call: Call::FindCustomer { external_id: who.company_id },
                then: Flow::Customer {
                    who,
                    goal: Goal::Checkout { back_url, success_url, payer_email },
                },
            }),
    {
        Progress::Ask {
            call: Call::FindCustomer { external_id: who.company_id.clone() },
            then: Flow::Customer {
                who,
                goal: Goal::Checkout { back_url, success_url, payer_email },
            },
        }
    }

    /// Cancels the company's open subscription. `NotFound("customer")` /
    /// `NotFound("subscription")` say what was missing.
    pub fn cancel(&self, company_id: String, reason: Option<String>) -> (progress: Progress)
        ensures
            progress == (Progress::Ask {
                call: Call::FindCustomer { external_id: company_id },
                then: Flow::CancelCustomer { company_id, reason },
            }),
    {
        Progress::Ask {
            call: Call::FindCustomer { external_id: company_id.clone() },
            then: Flow::CancelCustomer { company_id, reason },
        }
    }

    /// Whether an operation can go on with a reply.
    pub fn is_ready(&self, flow: &Flow, reply: &Result<Reply, BillingError>, now: Timestamp) -> (ready:
        bool)
        ensures
            forall|tick: Nanos| ready == #[trigger] self.at(now, tick).ready(*flow, *reply),
    {
        if !now.is_valid() {
            return false;
        }
        let reply = match reply {
            Ok(reply) => reply,
            Err(_) => {
                return true;
            },
        };
        match (flow, reply) {
            (Flow::Plans, Reply::Plans(_)) => true,
            (Flow::StateCustomer { .. }, Reply::Found(_)) => true,
            (Flow::StateRows { .. }, Reply::Subscriptions(_)) => true,
            (Flow::Customer { .. }, Reply::Found(_)) => true,
            (Flow::NewCustomer { .. }, Reply::Customer(_)) => true,
            (Flow::Plan { .. }, Reply::Plans(_)) => true,
            (Flow::Rows { goal, plan, .. }, Reply::Subscriptions(rows)) => match goal {
                Goal::Trial { .. } => find_row(rows, Some(plan.id.as_str()), false).is_some() || (
                plan.checked_period_end_from(now).is_some() && now.checked_add_days(
                    self.cfg.trial_days,
                ).is_some()),
                Goal::Checkout { .. } => find_row(rows, Some(plan.id.as_str()), true).is_some()
                    || plan.checked_period_end_from(now).is_some(),
            },
            (Flow::NewTrial { .. }, Reply::Subscription(_)) => true,
            (Flow::NewSubscription { .. }, Reply::Subscription(_)) => true,
            (Flow::Checkout { .. }, Reply::Checkout(_)) => true,
            (Flow::CancelCustomer { .. }, Reply::Found(_)) => true,
            (Flow::CancelRows { .. }, Reply::Subscriptions(_)) => true,
            (Flow::Cancelling { .. }, Reply::Cancelled) => true,
            _ => false,
        }
    }

    /// Goes on with an operation when the reply to its call is there. `now` is the
    /// wall clock, `tick` the monotonic clock that the cache goes by.
    pub fn resume(
        &mut self,
        flow: Flow,
        reply: Result<Reply, BillingError>,
        now: Timestamp,
        tick: Nanos,
    ) -> (progress: Progress)
        requires
            old(self).cache.wf(),
            old(self).at(now, tick).ready(flow, reply),
        ensures
            final(self).cache.wf(),
            final(self).client == old(self).client,
            final(self).cfg == old(self).cfg,
            old(self).at(now, tick).resumes(flow, reply, final(self).cache@, progress),
            progress.dated(),
    {
        let reply = match reply {
            Ok(reply) => reply,
            Err(e) => {
                return Progress::Done(Err(e));
            },
        };
        match (flow, reply) {
            (Flow::Plans, Reply::Plans(plans)) => Progress::Done(Ok(Output::Plans(plans))),
            (Flow::StateCustomer { company_id, provision }, Reply::Found(found)) => match found {
                None => self.settle(
                    company_id,
                    provision,
                    SubscriptionState::never_subscribed(),
                    now,
                    tick,
                ),
                Some(customer) => Progress::Ask {
                    call: Call::CustomerSubscriptions { customer_id: customer.id },
                    then: Flow::StateRows { company_id, provision },
                },
            },
            (Flow::StateRows { company_id, provision }, Reply::Subscriptions(rows)) => self.settle(
                company_id,
                provision,
                resolve_state(rows.as_slice(), now),
                now,
                tick,
            ),
            (Flow::Customer { who, goal }, Reply::Found(found)) => match found {
                Some(customer) => Progress::Ask {
                    call: Call::ListPlans,
                    then: Flow::Plan { who, goal, customer },
                },
                None => Progress::Ask {
                    call: Call::CreateCustomer {
                        external_id: who.company_id.clone(),
                        name: who.name.clone(),
                        email: who.email.clone(),
                    },
                    then: Flow::NewCustomer { who, goal },
                },
            },
            (Flow::NewCustomer { who, goal }, Reply::Customer(customer)) => Progress::Ask {
                call: Call::ListPlans,
                then: Flow::Plan { who, goal, customer },
            },
            (Flow::Plan { who, goal, customer }, Reply::Plans(plans)) => self.pick_plan(
                who,
                goal,
                customer,
                plans,
            ),
            (Flow::Rows { who, goal, customer, plan }, Reply::Subscriptions(rows)) => match goal {
                Goal::Trial { provisioning } => self.start_trial(
                    who,
                    provisioning,
                    customer,
                    plan,
                    rows,
                    now,
                    tick,
                ),
                Goal::Checkout { back_url, success_url, payer_email } => self.start_checkout(
                    who,
                    back_url,
                    success_url,
                    payer_email,
                    customer,
                    plan,
                    rows,
                    now,
                ),
            },
            (Flow::NewTrial { who, provisioning }, Reply::Subscription(created)) => {
                self.cache.invalidate(who.company_id.as_str());
                if provisioning {
                    self.look_up(who.company_id, None, tick)
                } else {
                    Progress::Done(Ok(Output::Trial(TrialOutcome::Created(created))))
                }
            },
            (
                Flow::NewSubscription { who, back_url, success_url, payer_email },
                Reply::Subscription(created),
            ) => self.ask_for_link(who, created, back_url, success_url, payer_email),
            (Flow::Checkout { company_id }, Reply::Checkout(response)) => {
                let outcome = CheckoutOutcome::from(response);
                self.cache.invalidate(company_id.as_str());
                Progress::Done(Ok(Output::Checkout(outcome)))
            },
            (Flow::CancelCustomer { company_id, reason }, Reply::Found(found)) => match found {
                Some(customer) => Progress::Ask {
                    call: Call::CustomerSubscriptions { customer_id: customer.id },
                    then: Flow::CancelRows { company_id, reason },
                },
                None => Progress::Done(Err(BillingError::NotFound("customer"))),
            },
            (Flow::CancelRows { company_id, reason }, Reply::Subscriptions(rows)) => {
                let mut rows = rows;
                match find_row(&rows, None, true) {
                    Some(i) => Progress::Ask {
                        call: Call::CancelSubscription {
                            subscription_id: rows.remove(i).id,
                            reason,
                        },
                        then: Flow::Cancelling { company_id },
                    },
                    None => Progress::Done(Err(BillingError::NotFound("subscription"))),
                }
            },
            (Flow::Cancelling { company_id }, _) => {
                self.cache.invalidate(company_id.as_str());
                Progress::Done(Ok(Output::Cancelled))
            },
            _ => {
                assert(false);
                Progress::Done(Ok(Output::Cancelled))
            },
        }
    }

    /// Looks a company's state up in the cache, and goes to core where it is not
    /// there.
    fn look_up(&self, company_id: String, provision: Option<CompanyIdentity>, tick: Nanos) -> (progress:
        Progress)
        ensures
            progress == self.cfg.looked_up(self.cache@, company_id, provision, tick),
            self.cache.wf() ==> progress.dated(),
    {
        match self.cache.get(company_id.as_str(), tick) {
            Some(cached) => self.conclude(cached, provision),
            None => Progress::Ask {
                call: Call::FindCustomer { external_id: company_id.clone() },
                then: Flow::StateCustomer { company_id, provision },
            },
        }
    }

    /// Hands a company's state out, or starts the trial of a company that never
    /// subscribed.
    fn conclude(&self, state: SubscriptionState, provision: Option<CompanyIdentity>) -> (progress:
        Progress)
        ensures
            progress == self.cfg.concluded(state, provision),
            state.dated() ==> progress.dated(),
    {
        match provision {
            Some(who) => if state.kind != SubscriptionKind::NeverSubscribed || self.cfg.trial_days
                <= 0 {
                Progress::Done(Ok(Output::State(state)))
            } else {
                Progress::Ask {
                    call: Call::FindCustomer { external_id: who.company_id.clone() },
                    then: Flow::Customer { who, goal: Goal::Trial { provisioning: true } },
                }
            },
            None => Progress::Done(Ok(Output::State(state))),
        }
    }

    /// Stores a company's state and concludes from it.
    fn settle(
        &mut self,
        company_id: String,
        provision: Option<CompanyIdentity>,
        state: SubscriptionState,
        now: Timestamp,
        tick: Nanos,
    ) -> (progress: Progress)
        requires
            old(self).cache.wf(),
            state.dated(),
        ensures
            final(self).cache.wf(),
            final(self).client == old(self).client,
            final(self).cfg == old(self).cfg,
            old(self).at(now, tick).settles(
                company_id,
                provision,
                state@,
                final(self).cache@,
                progress,
            ),
            progress.dated(),
    {
        self.cache.put(company_id.as_str(), state.clone(), tick);
        let ghost moment = old(self).at(now, tick);
        assert(self.cache@ == moment.cache.stored(company_id@, state, moment.tick));
        self.conclude(state, provision)
    }

    /// Looks for the product's plan in the catalogue.
    fn pick_plan(&self, who: CompanyIdentity, goal: Goal, customer: Customer, plans: Vec<Plan>) -> (progress:
        Progress)
        ensures
            forall|now: Timestamp, tick: Nanos|
                progress == #[trigger] self.at(now, tick).with_plans(who, goal, customer, plans@),
            progress.dated(),
    {
        let mut plans = plans;
        match find_plan(&plans, self.cfg.plan_slug.as_str()) {
            Some(i) => {
                let plan = plans.remove(i);
                Progress::Ask {
                    call: Call::CustomerSubscriptions { customer_id: customer.id.clone() },
                    then: Flow::Rows { who, goal, customer, plan },
                }
            },
            None => Progress::Done(Err(BillingError::PlanUnavailable(self.cfg.plan_slug.clone()))),
        }
    }

    /// Starts a trial, unless the customer has a subscription to the plan.
    fn start_trial(
        &self,
        who: CompanyIdentity,
        provisioning: bool,
        customer: Customer,
        plan: Plan,
        rows: Vec<Subscription>,
        now: Timestamp,
        tick: Nanos,
    ) -> (progress: Progress)
        requires
            self.cache.wf(),
            now.valid(),
            wanted_row(rows@, Some(plan.id@), false) is None ==> plan.period_end(now) is Some
                && now.days_later(self.cfg.trial_days as int) is Some,
        ensures
            progress == self.at(now, tick).with_trial_rows(
                who,
                provisioning,
                customer,
                plan,
                rows@,
            ),
            progress.dated(),
    {
        let mut rows = rows;
        match find_row(&rows, Some(plan.id.as_str()), false) {
            Some(i) => {
                let existing = rows.remove(i);
                if provisioning {
                    self.look_up(who.company_id, None, tick)
                } else {
                    Progress::Done(Ok(Output::Trial(TrialOutcome::Existing(existing))))
                }
            },
            None => {
                let period_end = plan.period_end_from(now);
                let trial_end = now.checked_add_days(self.cfg.trial_days).unwrap();
                Progress::Ask {
                    call: Call::CreateSubscription {
                        customer_id: customer.id,
                        plan_id: plan.id,
                        payment_provider: self.cfg.provider.clone(),
                        period_start: now,
                        period_end,
                        trial_ends_at: Some(trial_end),
                    },
                    then: Flow::NewTrial { who, provisioning },
                }
            },
        }
    }

    /// Pays for the customer's open subscription to the plan, or for a new one.
    fn start_checkout(
        &self,
        who: CompanyIdentity,
        back_url: String,
        success_url: Option<String>,
        payer_email: Option<String>,
        customer: Customer,
        plan: Plan,
        rows: Vec<Subscription>,
        now: Timestamp,
    ) -> (progress: Progress)
        requires
            now.valid(),
            wanted_row(rows@, Some(plan.id@), true) is None ==> plan.period_end(now) is Some,
        ensures
            forall|tick: Nanos|
                progress == #[trigger] self.at(now, tick).with_checkout_rows(
                    who,
                    back_url,
                    success_url,
                    payer_email,
                    customer,
                    plan,
                    rows@,
                ),
            progress.dated(),
    {
        let mut rows = rows;
        match find_row(&rows, Some(plan.id.as_str()), true) {
            Some(i) => {
                let open = rows.remove(i);
                self.ask_for_link(who, open, back_url, success_url, payer_email)
            },
            None => {
                let period_end = plan.period_end_from(now);
                Progress::Ask {
                    call: Call::CreateSubscription {
                        customer_id: customer.id,
                        plan_id: plan.id,
                        payment_provider: self.cfg.provider.clone(),
                        period_start: now,
                        period_end,
                        trial_ends_at: None,
                    },
                    then: Flow::NewSubscription { who, back_url, success_url, payer_email },
                }
            },
        }
    }

    /// Asks for a payment link for a subscription.
    fn ask_for_link(
        &self,
        who: CompanyIdentity,
        subscription: Subscription,
        back_url: String,
        success_url: Option<String>,
        payer_email: Option<String>,
    ) -> (progress: Progress)
        ensures
            progress == (Progress::Ask {
                call: self.cfg.checkout_call(
                    who,
                    subscription,
                    back_url,
                    success_url,
                    payer_email,
                ),
                then: Flow::Checkout { company_id: who.company_id },
            }),
    {
        let customer_email = match payer_email {
            Some(email) => email,
            None => who.email,
        };
        Progress::Ask {
            call: Call::InitiateCheckout {
                subscription_id: subscription.id,
                provider: self.cfg.provider.clone(),
                customer_email,
                back_url,
                success_url,
            },
            then: Flow::Checkout { company_id: who.company_id },
        }
    }
}

// -- laws -------------------------------------------------------------------------

/// One turn of a conversation: the reply to the call asked for, the moment it came,
/// and what the service made of it.
pub struct Turn {
    pub reply: Result<Reply, BillingError>,
    pub at: Moment,
    pub after: crate::billing::cache::StateCacheView,
    pub progress: Progress,
}

/// What an operation that started with `flow` waits for after some turns.
pub open spec fn waiting(flow: Flow, turns: Seq<Turn>) -> Option<Flow> {
    if turns.len() == 0 {
        Some(flow)
    } else {
        match turns.last().progress {
            Progress::Ask { then, .. } => Some(then),
            Progress::Done(_) => None,
        }
    }
}

/// Whether the turns are a conversation that starts with `flow`. What is cached may
/// change between two turns: others use the cache too.
pub open spec fn converses(cfg: ServiceConfig, flow: Flow, turns: Seq<Turn>) -> bool
    decreases turns.len(),
{
    turns.len() == 0 || {
        let turn = turns.last();
        &&& converses(cfg, flow, turns.drop_last())
        &&& waiting(flow, turns.drop_last()) matches Some(awaiting)
        &&& turn.at.cfg == cfg
        &&& turn.at.ready(awaiting, turn.reply)
        &&& turn.at.resumes(awaiting, turn.reply, turn.after, turn.progress)
    }
}

/// Whether every call asked for in the turns only reads.
pub open spec fn only_reads(turns: Seq<Turn>) -> bool {
    forall|i: int|
        0 <= i < turns.len() ==> ((#[trigger] turns[i]).progress matches Progress::Ask { call, .. }
            ==> call.is_read())
}

/// Whether a progress asks for a subscription to be created.
pub open spec fn asks_to_create(progress: Progress) -> bool {
    progress matches Progress::Ask { call, .. } && call is CreateSubscription
}

impl Flow {
    /// Whether the operation is a question for a state that grants no trial.
    pub open spec fn only_asks(self, cfg: ServiceConfig) -> bool {
        match self {
            Flow::StateCustomer { provision, .. } => provision is None || cfg.trial_days <= 0,
            Flow::StateRows { provision, .. } => provision is None || cfg.trial_days <= 0,
            _ => false,
        }
    }

    /// Whether the operation may still come to creating a subscription.
    pub open spec fn may_create(self) -> bool {
        match self {
            Flow::StateCustomer { provision, .. } => provision is Some,
            Flow::StateRows { provision, .. } => provision is Some,
            Flow::Customer { .. } => true,
            Flow::NewCustomer { .. } => true,
            Flow::Plan { .. } => true,
            Flow::Rows { .. } => true,
            _ => false,
        }
    }

    /// How many calls the operation may still take, the one it waits for included.
    pub open spec fn calls_left(self) -> int {
        match self {
            Flow::Plans => 1,
            Flow::StateCustomer { provision, .. } => if provision is None {
                2
            } else {
                9
            },
            Flow::StateRows { provision, .. } => if provision is None {
                1
            } else {
                8
            },
            Flow::Customer { goal, .. } => goal.calls_after_plan() + 3,
            Flow::NewCustomer { goal, .. } => goal.calls_after_plan() + 2,
            Flow::Plan { goal, .. } => goal.calls_after_plan() + 1,
            Flow::Rows { goal, .. } => goal.calls_after_plan(),
            Flow::NewTrial { provisioning, .. } => if provisioning {
                3
            } else {
                1
            },
            Flow::NewSubscription { .. } => 2,
            Flow::Checkout { .. } => 1,
            Flow::CancelCustomer { .. } => 3,
            Flow::CancelRows { .. } => 2,
            Flow::Cancelling { .. } => 1,
        }
    }

    /// Whether an output is of the kind that the operation comes to.
    pub open spec fn yields(self, output: Output) -> bool {
        match self {
            Flow::Plans => output is Plans,
            Flow::StateCustomer { .. } => output is State,
            Flow::StateRows { .. } => output is State,
            Flow::Customer { goal, .. } => goal.yields(output),
            Flow::NewCustomer { goal, .. } => goal.yields(output),
            Flow::Plan { goal, .. } => goal.yields(output),
            Flow::Rows { goal, .. } => goal.yields(output),
            Flow::NewTrial { provisioning, .. } => (Goal::Trial { provisioning }).yields(output),
            Flow::NewSubscription { .. } => output is Checkout,
            Flow::Checkout { .. } => output is Checkout,
            Flow::CancelCustomer { .. } => output is Cancelled,
            Flow::CancelRows { .. } => output is Cancelled,
            Flow::Cancelling { .. } => output is Cancelled,
        }
    }

    /// The company that the operation is about.
    pub open spec fn company(self) -> Seq<char> {
        match self {
            Flow::Plans => seq![],
            Flow::StateCustomer { company_id, .. } => company_id@,
            Flow::StateRows { company_id, .. } => company_id@,
            Flow::Customer { who, .. } => who.company_id@,
            Flow::NewCustomer { who, .. } => who.company_id@,
            Flow::Plan { who, .. } => who.company_id@,
            Flow::Rows { who, .. } => who.company_id@,
            Flow::NewTrial { who, .. } => who.company_id@,
            Flow::NewSubscription { who, .. } => who.company_id@,
            Flow::Checkout { company_id } => company_id@,
            Flow::CancelCustomer { company_id, .. } => company_id@,
            Flow::CancelRows { company_id, .. } => company_id@,
            Flow::Cancelling { company_id } => company_id@,
        }
    }
}

impl Goal {
    /// How many calls may follow once the plan is known.
    pub open spec fn calls_after_plan(self) -> int {
        match self {
            Goal::Trial { provisioning } => if provisioning {
                4
            } else {
                2
            },
            Goal::Checkout { .. } => 3,
        }
    }

    /// Whether an output is of the kind that is aimed for.
    pub open spec fn yields(self, output: Output) -> bool {
        match self {
            Goal::Trial { provisioning } => if provisioning {
                output is State
            } else {
                output is Trial
            },
            Goal::Checkout { .. } => output is Checkout,
        }
    }
}

proof fn lemma_questions_only_read(cfg: ServiceConfig, flow: Flow, turns: Seq<Turn>)
    requires
        flow.only_asks(cfg),
        converses(cfg, flow, turns),
    ensures
        only_reads(turns),
        waiting(flow, turns) matches Some(awaiting) ==> awaiting.only_asks(cfg),
    decreases turns.len(),
{
    if turns.len() > 0 {
        lemma_questions_only_read(cfg, flow, turns.drop_last());
        assert forall|i: int| 0 <= i < turns.len() implies ((
        #[trigger] turns[i]).progress matches Progress::Ask { call, .. } ==> call.is_read()) by {
            if i < turns.len() - 1 {
                assert(turns.drop_last()[i] == turns[i]);
            }
        }
    }
}

/// Asking for a company's state never creates anything: every call it makes only
/// reads.
pub proof fn law_state_never_creates(
    cfg: ServiceConfig,
    cache: crate::billing::cache::StateCacheView,
    company_id: String,
    tick: Nanos,
    turns: Seq<Turn>,
)
    ensures
        cfg.looked_up(cache, company_id, None, tick) matches Progress::Ask { call, then } ==> {
            &&& call.is_read()
            &&& converses(cfg, then, turns) ==> only_reads(turns)
        },
{
    match cfg.looked_up(cache, company_id, None, tick) {
        Progress::Ask { then, .. } => if converses(cfg, then, turns) {
            lemma_questions_only_read(cfg, then, turns);
        },
        _ => {},
    }
}

/// Zero trial days disable provisioning: the question for a state is then a question
/// and nothing more, whoever asks.
pub proof fn law_zero_trial_days_disable_provisioning(
    cfg: ServiceConfig,
    cache: crate::billing::cache::StateCacheView,
    who: CompanyIdentity,
    tick: Nanos,
    turns: Seq<Turn>,
)
    requires
        cfg.trial_days <= 0,
    ensures
        cfg.looked_up(cache, who.company_id, Some(who), tick) matches Progress::Ask { call, then }
            ==> {
            &&& call.is_read()
            &&& converses(cfg, then, turns) ==> only_reads(turns)
        },
{
    match cfg.looked_up(cache, who.company_id, Some(who), tick) {
        Progress::Ask { then, .. } => if converses(cfg, then, turns) {
            lemma_questions_only_read(cfg, then, turns);
        },
        _ => {},
    }
}

proof fn lemma_found_row_is_wanted(
    rows: Seq<Subscription>,
    plan_id: Option<Seq<char>>,
    open_only: bool,
)
    ensures
        match wanted_row(rows, plan_id, open_only) {
            Some(row) => rows.contains(row) && is_wanted(row, plan_id, open_only),
            None => forall|i: int|
                0 <= i < rows.len() ==> !is_wanted(#[trigger] rows[i], plan_id, open_only),
        },
    decreases rows.len(),
{
    if rows.len() > 0 {
        let rest = rows.drop_first();
        lemma_found_row_is_wanted(rest, plan_id, open_only);
        if is_wanted(rows[0], plan_id, open_only) {
            assert(rows.contains(rows[0]));
        } else {
            match wanted_row(rest, plan_id, open_only) {
                Some(row) => {
                    let i = choose|i: int| 0 <= i < rest.len() && rest[i] == row;
                    assert(rows[i + 1] == row);
                },
                None => {
                    assert forall|i: int| 0 <= i < rows.len() implies !is_wanted(
                        #[trigger] rows[i],
                        plan_id,
                        open_only,
                    ) by {
                        if i > 0 {
                            assert(rest[i - 1] == rows[i]);
                        }
                    }
                },
            }
        }
    }
}

/// No second free trial: a customer with a subscription to the plan, whatever its
/// status, keeps that one, and nothing is created.
pub proof fn law_no_second_free_trial(
    moment: Moment,
    who: CompanyIdentity,
    provisioning: bool,
    customer: Customer,
    plan: Plan,
    rows: Seq<Subscription>,
)
    requires
        exists|i: int|
            0 <= i < rows.len() && (#[trigger] rows[i]).plan_row() && rows[i].plan_id@ == plan.id@,
    ensures
        !asks_to_create(moment.with_trial_rows(who, provisioning, customer, plan, rows)),
        !provisioning ==> (moment.with_trial_rows(
            who,
            provisioning,
            customer,
            plan,
            rows,
        ) matches Progress::Done(Ok(Output::Trial(TrialOutcome::Existing(existing))))
            && rows.contains(existing) && existing.plan_id@ == plan.id@),
{
    lemma_found_row_is_wanted(rows, Some(plan.id@), false);
    let i = choose|i: int|
        0 <= i < rows.len() && (#[trigger] rows[i]).plan_row() && rows[i].plan_id@ == plan.id@;
    assert(is_wanted(rows[i], Some(plan.id@), false));
}

/// A payment link is asked for the customer's open subscription to the plan, an
/// expired trial included; only where there is none is one created.
pub proof fn law_checkout_reuses_an_open_subscription(
    moment: Moment,
    who: CompanyIdentity,
    back_url: String,
    success_url: Option<String>,
    payer_email: Option<String>,
    customer: Customer,
    plan: Plan,
    rows: Seq<Subscription>,
)
    ensures
        ({
            let progress = moment.with_checkout_rows(
                who,
                back_url,
                success_url,
                payer_email,
                customer,
                plan,
                rows,
            );
            if exists|i: int|
                0 <= i < rows.len() && is_wanted(#[trigger] rows[i], Some(plan.id@), true) {
                exists|open: Subscription|
                    {
                        &&& #[trigger] rows.contains(open)
                        &&& is_wanted(open, Some(plan.id@), true)
                        &&& progress matches Progress::Ask {
                            call: Call::InitiateCheckout { subscription_id, .. },
                            ..
                        }
                        &&& subscription_id == open.id
                    }
            } else {
                asks_to_create(progress)
            }
        }),
{
    lemma_found_row_is_wanted(rows, Some(plan.id@), true);
}

/// A subscription is created in one place only, for the plan's own period from now
/// on. A trial has the configured length, whatever the period; a checkout's
/// subscription has no trial.
pub proof fn law_created_subscription(
    moment: Moment,
    flow: Flow,
    reply: Result<Reply, BillingError>,
    after: crate::billing::cache::StateCacheView,
    progress: Progress,
)
    requires
        moment.ready(flow, reply),
        moment.resumes(flow, reply, after, progress),
        asks_to_create(progress),
    ensures
        flow is Rows,
        progress matches Progress::Ask {
            call: Call::CreateSubscription {
                customer_id,
                plan_id,
                payment_provider,
                period_start,
                period_end,
                trial_ends_at,
            },
            ..
        } && {
            &&& customer_id == (flow->Rows_customer).id
            &&& plan_id == (flow->Rows_plan).id
            &&& payment_provider == moment.cfg.provider
            &&& period_start == moment.now
            &&& (flow->Rows_plan).period_end(moment.now) == Some(period_end)
            &&& match flow->Rows_goal {
                Goal::Trial { .. } => trial_ends_at is Some && trial_ends_at
                    == moment.now.days_later(moment.cfg.trial_days as int),
                Goal::Checkout { .. } => trial_ends_at is None,
            }
        },
{
}

/// A trial lasts its days: once core lists the subscription that was asked for, with
/// the trial end that was sent, the company's trial is active up to the configured
/// number of days from then, and expired from there on.
pub proof fn law_trial_lasts_its_days(
    moment: Moment,
    flow: Flow,
    reply: Result<Reply, BillingError>,
    after: crate::billing::cache::StateCacheView,
    progress: Progress,
    row: Subscription,
    later: Timestamp,
)
    requires
        moment.ready(flow, reply),
        moment.resumes(flow, reply, after, progress),
        progress matches Progress::Ask { call: Call::CreateSubscription { trial_ends_at, .. }, .. }
            && trial_ends_at is Some && crate::billing::state::field_instant(row.trial_ends_at)
            == trial_ends_at,
        row.plan_row(),
        row.status@ == "trialing"@,
    ensures
        crate::billing::state::resolved(seq![row], later).kind == if later.before(
            moment.now.days_later(moment.cfg.trial_days as int)->0,
        ) {
            SubscriptionKind::TrialActive
        } else {
            SubscriptionKind::TrialExpired
        },
{
    reveal_strlit("trialing");
    reveal_strlit("active");
    assert("trialing"@.len() != "active"@.len());
    assert(seq![row][0] == row);
}

proof fn lemma_creation_is_over(cfg: ServiceConfig, flow: Flow, turns: Seq<Turn>, created: int)
    requires
        converses(cfg, flow, turns),
        0 <= created < turns.len(),
        asks_to_create(turns[created].progress),
    ensures
        waiting(flow, turns) matches Some(awaiting) ==> !awaiting.may_create(),
        forall|j: int|
            created < j < turns.len() ==> !asks_to_create((#[trigger] turns[j]).progress),
    decreases turns.len(),
{
    if created < turns.len() - 1 {
        assert(turns.drop_last()[created] == turns[created]);
        lemma_creation_is_over(cfg, flow, turns.drop_last(), created);
        assert forall|j: int| created < j < turns.len() implies !asks_to_create(
            (#[trigger] turns[j]).progress,
        ) by {
            if j < turns.len() - 1 {
                assert(turns.drop_last()[j] == turns[j]);
            }
        }
    }
}

/// An operation creates at most one subscription.
pub proof fn law_at_most_one_subscription_is_created(
    cfg: ServiceConfig,
    flow: Flow,
    turns: Seq<Turn>,
    i: int,
    j: int,
)
    requires
        converses(cfg, flow, turns),
        0 <= i < j < turns.len(),
        asks_to_create(turns[i].progress),
    ensures
        !asks_to_create(turns[j].progress),
{
    lemma_creation_is_over(cfg, flow, turns, i);
}

/// Every operation ends: it takes no more calls than [`Flow::calls_left`] says.
pub proof fn law_operations_end(cfg: ServiceConfig, flow: Flow, turns: Seq<Turn>)
    requires
        converses(cfg, flow, turns),
    ensures
        turns.len() <= flow.calls_left(),
        waiting(flow, turns) matches Some(awaiting) ==> turns.len() + awaiting.calls_left()
            <= flow.calls_left(),
    decreases turns.len(),
{
    if turns.len() > 0 {
        law_operations_end(cfg, flow, turns.drop_last());
    }
}

/// A call is answered with what the operation waits for then, and an operation comes
/// to the same kind of output from start to end.
pub proof fn law_replies_and_outputs_fit(
    moment: Moment,
    flow: Flow,
    reply: Result<Reply, BillingError>,
    after: crate::billing::cache::StateCacheView,
    progress: Progress,
)
    requires
        moment.ready(flow, reply),
        moment.resumes(flow, reply, after, progress),
    ensures
        match progress {
            Progress::Ask { call, then } => {
                &&& forall|next: Reply| #[trigger] call.answered_by(next) == then.awaits(next)
                &&& forall|output: Output| #[trigger] then.yields(output) == flow.yields(output)
            },
            Progress::Done(Ok(output)) => flow.yields(output),
            Progress::Done(Err(_)) => true,
        },
{
}

/// A failed operation leaves the cache as it is.
pub proof fn law_failures_leave_the_cache(
    moment: Moment,
    flow: Flow,
    reply: Result<Reply, BillingError>,
    after: crate::billing::cache::StateCacheView,
    progress: Progress,
)
    requires
        moment.ready(flow, reply),
        moment.resumes(flow, reply, after, progress),
        progress matches Progress::Done(Err(_)),
    ensures
        after == moment.cache,
{
}

/// A new trial, a payment link and a cancellation each drop the company's cached
/// state, and no other company's.
pub proof fn law_changes_drop_the_cached_state(
    moment: Moment,
    flow: Flow,
    reply: Result<Reply, BillingError>,
    after: crate::billing::cache::StateCacheView,
    progress: Progress,
    other: Seq<char>,
    tick: Nanos,
)
    requires
        moment.ready(flow, reply),
        moment.resumes(flow, reply, after, progress),
        progress matches Progress::Done(Ok(output)) && (output is Checkout || output is Cancelled
            || output matches Output::Trial(TrialOutcome::Created(_))),
    ensures
        after.lookup(flow.company(), tick) is None,
        other != flow.company() ==> after.lookup(other, tick) == moment.cache.lookup(other, tick),
{
}

/// A second read inside the cache's lifetime makes no new round trip: it is answered
/// with the state that the first one gave.
pub proof fn law_second_read_makes_no_round_trip(
    moment: Moment,
    flow: Flow,
    reply: Result<Reply, BillingError>,
    after: crate::billing::cache::StateCacheView,
    state: SubscriptionState,
    company_id: String,
    tick: Nanos,
)
    requires
        flow is StateCustomer || flow is StateRows,
        moment.ready(flow, reply),
        moment.resumes(flow, reply, after, Progress::Done(Ok(Output::State(state)))),
        company_id@ == flow.company(),
        crate::time::elapsed(moment.tick, tick) < moment.cache.ttl,
    ensures
        moment.cfg.looked_up(after, company_id, None, tick) == Progress::Done(
            Ok(Output::State(state)),
        ),
{
}

/// Provisioning returns the real state: after a trial was created, the state is asked
/// of core, not taken from the cache.
pub proof fn law_new_trial_is_read_back(
    moment: Moment,
    who: CompanyIdentity,
    created: Subscription,
    after: crate::billing::cache::StateCacheView,
    progress: Progress,
)
    requires
        moment.resumes(
            Flow::NewTrial { who, provisioning: true },
            Ok(Reply::Subscription(created)),
            after,
            progress,
        ),
    ensures
        progress == (Progress::Ask {
            call: Call::FindCustomer { external_id: who.company_id },
            then: Flow::StateCustomer { company_id: who.company_id, provision: None },
        }),
{
}

/// Cancelling targets an open subscription of the customer, and says so when there
/// is none.
pub proof fn law_cancel_targets_an_open_subscription(
    moment: Moment,
    company_id: String,
    reason: Option<String>,
    rows: Vec<Subscription>,
    after: crate::billing::cache::StateCacheView,
    progress: Progress,
)
    requires
        moment.resumes(
            Flow::CancelRows { company_id, reason },
            Ok(Reply::Subscriptions(rows)),
            after,
            progress,
        ),
    ensures
        if exists|i: int| 0 <= i < rows@.len() && is_wanted(#[trigger] rows@[i], None, true) {
            exists|open: Subscription|
                {
                    &&& #[trigger] rows@.contains(open)
                    &&& is_wanted(open, None, true)
                    &&& progress matches Progress::Ask { call, .. }
                    &&& call == (Call::CancelSubscription { subscription_id: open.id, reason })
                }
        } else {
            progress == Progress::Done(Err(BillingError::NotFound("subscription")))
        },
{
    lemma_found_row_is_wanted(rows@, None, true);
}

/// Rows that are not a plan's are never taken for a subscription: dropping them
/// changes nothing.
pub proof fn law_addon_rows_are_passed_over(
    rows: Seq<Subscription>,
    plan_id: Option<Seq<char>>,
    open_only: bool,
)
    ensures
        wanted_row(crate::billing::client::only_plan_rows(rows), plan_id, open_only) == wanted_row(
            rows,
            plan_id,
            open_only,
        ),
    decreases rows.len(),
{
    let keep = |row: Subscription| row.plan_row();
    reveal_with_fuel(Seq::filter, 2);
    if rows.len() > 0 {
        let rest = rows.drop_first();
        law_addon_rows_are_passed_over(rest, plan_id, open_only);
        let head = seq![rows[0]];
        assert(rows =~= head + rest);
        Seq::filter_distributes_over_add(head, rest, keep);
        assert(head.drop_last() =~= Seq::<Subscription>::empty());
        if rows[0].plan_row() {
            assert(head.filter(keep) =~= head);
            assert(rows.filter(keep)[0] == rows[0]);
            assert(rows.filter(keep).drop_first() =~= rest.filter(keep));
        } else {
            assert(head.filter(keep) =~= Seq::<Subscription>::empty());
            assert(rows.filter(keep) =~= rest.filter(keep));
        }
    }
}

proof fn lemma_first_plan_with_slug(plans: Seq<Plan>, slug: Seq<char>, i: int)
    requires
        0 <= i <= plans.len(),
        i < plans.len() ==> plans[i].slug@ == slug,
        forall|j: int| 0 <= j < i ==> (#[trigger] plans[j]).slug@ != slug,
    ensures
        plan_with_slug(plans, slug) == if i < plans.len() {
            Some(plans[i])
        } else {
            None
        },
    decreases i,
{
    if i > 0 {
        let rest = plans.drop_first();
        assert(plans[0].slug@ != slug);
        assert forall|j: int| 0 <= j < i - 1 implies (#[trigger] rest[j]).slug@ != slug by {
            assert(rest[j] == plans[j + 1]);
        }
        lemma_first_plan_with_slug(rest, slug, i - 1);
    }
}

proof fn lemma_first_wanted_row(
    rows: Seq<Subscription>,
    plan_id: Option<Seq<char>>,
    open_only: bool,
    i: int,
)
    requires
        0 <= i <= rows.len(),
        i < rows.len() ==> is_wanted(rows[i], plan_id, open_only),
        forall|j: int| 0 <= j < i ==> !is_wanted(#[trigger] rows[j], plan_id, open_only),
    ensures
        wanted_row(rows, plan_id, open_only) == if i < rows.len() {
            Some(rows[i])
        } else {
            None
        },
    decreases i,
{
    if i > 0 {
        let rest = rows.drop_first();
        assert(!is_wanted(rows[0], plan_id, open_only));
        assert forall|j: int| 0 <= j < i - 1 implies !is_wanted(
            #[trigger] rest[j],
            plan_id,
            open_only,
        ) by {
            assert(rest[j] == rows[j + 1]);
        }
        lemma_first_wanted_row(rest, plan_id, open_only, i - 1);
    }
}

/// The plan that an operation goes on with is the first one listed with the configured
/// slug, whatever else is listed; the customer's rows are asked for next.
pub proof fn law_plan_is_taken_by_its_slug(
    moment: Moment,
    who: CompanyIdentity,
    goal: Goal,
    customer: Customer,
    plans: Vec<Plan>,
    i: int,
    after: crate::billing::cache::StateCacheView,
    progress: Progress,
)
    requires
        moment.resumes(
            Flow::Plan { who, goal, customer },
            Ok(Reply::Plans(plans)),
            after,
            progress,
        ),
        0 <= i < plans@.len(),
        plans@[i].slug@ == moment.cfg.plan_slug@,
        forall|j: int| 0 <= j < i ==> (#[trigger] plans@[j]).slug@ != moment.cfg.plan_slug@,
    ensures
        after == moment.cache,
        progress == (Progress::Ask {
            call: Call::CustomerSubscriptions { customer_id: customer.id },
            then: Flow::Rows { who, goal, customer, plan: plans@[i] },
        }),
{
    lemma_first_plan_with_slug(plans@, moment.cfg.plan_slug@, i);
}

/// The plan is unavailable exactly when no listed plan has the configured slug, and the
/// error names that slug.
pub proof fn law_plan_is_unavailable_when_not_listed(
    moment: Moment,
    who: CompanyIdentity,
    goal: Goal,
    customer: Customer,
    plans: Vec<Plan>,
    after: crate::billing::cache::StateCacheView,
    progress: Progress,
)
    requires
        moment.resumes(
            Flow::Plan { who, goal, customer },
            Ok(Reply::Plans(plans)),
            after,
            progress,
        ),
    ensures
        (forall|j: int|
            0 <= j < plans@.len() ==> (#[trigger] plans@[j]).slug@ != moment.cfg.plan_slug@)
            <==> progress == Progress::Done(
            Err(BillingError::PlanUnavailable(moment.cfg.plan_slug)),
        ),
        progress matches Progress::Ask { then: Flow::Rows { plan, .. }, .. } ==> plan.slug@
            == moment.cfg.plan_slug@ && plans@.contains(plan),
        progress is Ask || progress == Progress::Done(
            Err(BillingError::PlanUnavailable(moment.cfg.plan_slug)),
        ),
    decreases plans@.len(),
{
    lemma_picked_plan_is_listed(plans@, moment.cfg.plan_slug@);
    if forall|j: int|
        0 <= j < plans@.len() ==> (#[trigger] plans@[j]).slug@ != moment.cfg.plan_slug@ {
        lemma_first_plan_with_slug(plans@, moment.cfg.plan_slug@, plans@.len() as int);
    }
}

proof fn lemma_picked_plan_is_listed(plans: Seq<Plan>, slug: Seq<char>)
    ensures
        plan_with_slug(plans, slug) matches Some(plan) ==> plan.slug@ == slug && plans.contains(
            plan,
        ),
        plan_with_slug(plans, slug) is None ==> forall|j: int|
            0 <= j < plans.len() ==> (#[trigger] plans[j]).slug@ != slug,
    decreases plans.len(),
{
    if plans.len() > 0 {
        let rest = plans.drop_first();
        lemma_picked_plan_is_listed(rest, slug);
        if plans[0].slug@ == slug {
            assert(plans.contains(plans[0]));
        } else if plan_with_slug(rest, slug) is Some {
            let j = choose|j: int| 0 <= j < rest.len() && rest[j] == plan_with_slug(rest, slug)->0;
            assert(plans[j + 1] == rest[j]);
        } else {
            assert forall|j: int| 0 <= j < plans.len() implies (#[trigger] plans[j]).slug@
                != slug by {
                if j > 0 {
                    assert(rest[j - 1] == plans[j]);
                }
            }
        }
    }
}

/// Cancelling asks to cancel the first plan row whose status is none of the three that end
/// a subscription, a trial included, with the reason that was given.
pub proof fn law_cancel_takes_the_first_open_row(
    moment: Moment,
    company_id: String,
    reason: Option<String>,
    rows: Vec<Subscription>,
    i: int,
    after: crate::billing::cache::StateCacheView,
    progress: Progress,
)
    requires
        moment.resumes(
            Flow::CancelRows { company_id, reason },
            Ok(Reply::Subscriptions(rows)),
            after,
            progress,
        ),
        0 <= i < rows@.len(),
        rows@[i].kind matches Some(kind) ==> kind@ == "plan"@,
        rows@[i].status@ != "cancelled"@,
        rows@[i].status@ != "incomplete_expired"@,
        rows@[i].status@ != "expired"@,
        forall|j: int|
            0 <= j < i ==> ((#[trigger] rows@[j]).kind matches Some(kind) && kind@ != "plan"@)
                || rows@[j].status@ == "cancelled"@ || rows@[j].status@ == "incomplete_expired"@
                || rows@[j].status@ == "expired"@,
    ensures
        after == moment.cache,
        progress == (Progress::Ask {
            call: Call::CancelSubscription { subscription_id: rows@[i].id, reason },
            then: Flow::Cancelling { company_id },
        }),
{
    lemma_first_wanted_row(rows@, None, true, i);
}

/// There is nothing to cancel exactly when every plan row has one of the three statuses
/// that end a subscription.
pub proof fn law_cancel_finds_nothing_only_among_ended_rows(
    moment: Moment,
    company_id: String,
    reason: Option<String>,
    rows: Vec<Subscription>,
    after: crate::billing::cache::StateCacheView,
    progress: Progress,
)
    requires
        moment.resumes(
            Flow::CancelRows { company_id, reason },
            Ok(Reply::Subscriptions(rows)),
            after,
            progress,
        ),
    ensures
        progress == Progress::Done(Err(BillingError::NotFound("subscription"))) <==> forall|j: int|
            0 <= j < rows@.len() ==> ((#[trigger] rows@[j]).kind matches Some(kind) && kind@
                != "plan"@) || rows@[j].status@ == "cancelled"@ || rows@[j].status@
                == "incomplete_expired"@ || rows@[j].status@ == "expired"@,
        after == moment.cache,
{
    lemma_found_row_is_wanted(rows@, None, true);
    if forall|j: int|
        0 <= j < rows@.len() ==> ((#[trigger] rows@[j]).kind matches Some(kind) && kind@
            != "plan"@) || rows@[j].status@ == "cancelled"@ || rows@[j].status@
            == "incomplete_expired"@ || rows@[j].status@ == "expired"@ {
        lemma_first_wanted_row(rows@, None, true, rows@.len() as int);
    } else {
        let j = choose|j: int|
            0 <= j < rows@.len() && !(((#[trigger] rows@[j]).kind matches Some(kind) && kind@
                != "plan"@) || rows@[j].status@ == "cancelled"@ || rows@[j].status@
                == "incomplete_expired"@ || rows@[j].status@ == "expired"@);
        assert(is_wanted(rows@[j], None, true));
    }
}

/// A company without a customer has nothing to cancel; one with a customer has that
/// customer's rows looked at. Once core has cancelled, the cancellation is done.
pub proof fn law_cancel_starts_and_ends(
    moment: Moment,
    company_id: String,
    reason: Option<String>,
    found: Option<Customer>,
    after: crate::billing::cache::StateCacheView,
    progress: Progress,
)
    ensures
        moment.resumes(
            Flow::CancelCustomer { company_id, reason },
            Ok(Reply::Found(found)),
            after,
            progress,
        ) ==> after == moment.cache && match found {
            None => progress == Progress::Done(Err(BillingError::NotFound("customer"))),
            Some(customer) => progress == (Progress::Ask {
                call: Call::CustomerSubscriptions { customer_id: customer.id },
                then: Flow::CancelRows { company_id, reason },
            }),
        },
        moment.resumes(
            Flow::Cancelling { company_id },
            Ok(Reply::Cancelled),
            after,
            progress,
        ) ==> progress == Progress::Done(Ok(Output::Cancelled)) && !after.entries.contains_key(
            company_id@,
        ),
{
}

/// A customer with a plan row on the plan, whatever its status, is given the first such row;
/// nothing is created and nothing forgotten.
pub proof fn law_trial_gives_the_first_row_on_the_plan(
    moment: Moment,
    who: CompanyIdentity,
    customer: Customer,
    plan: Plan,
    rows: Vec<Subscription>,
    i: int,
    after: crate::billing::cache::StateCacheView,
    progress: Progress,
)
    requires
        moment.resumes(
            Flow::Rows { who, goal: Goal::Trial { provisioning: false }, customer, plan },
            Ok(Reply::Subscriptions(rows)),
            after,
            progress,
        ),
        0 <= i < rows@.len(),
        rows@[i].kind matches Some(kind) ==> kind@ == "plan"@,
        rows@[i].plan_id@ == plan.id@,
        forall|j: int|
            0 <= j < i ==> ((#[trigger] rows@[j]).kind matches Some(kind) && kind@ != "plan"@)
                || rows@[j].plan_id@ != plan.id@,
    ensures
        after == moment.cache,
        progress == Progress::Done(Ok(Output::Trial(TrialOutcome::Existing(rows@[i])))),
{
    lemma_first_wanted_row(rows@, Some(plan.id@), false, i);
}

/// A customer without a plan row on the plan is given a trial: for them, on that plan, from
/// now to the end of the plan's period, with the configured provider and trial days.
pub proof fn law_trial_is_created_without_a_row_on_the_plan(
    moment: Moment,
    who: CompanyIdentity,
    provisioning: bool,
    customer: Customer,
    plan: Plan,
    rows: Vec<Subscription>,
    after: crate::billing::cache::StateCacheView,
    progress: Progress,
)
    requires
        moment.ready(
            Flow::Rows { who, goal: Goal::Trial { provisioning }, customer, plan },
            Ok(Reply::Subscriptions(rows)),
        ),
        moment.resumes(
            Flow::Rows { who, goal: Goal::Trial { provisioning }, customer, plan },
            Ok(Reply::Subscriptions(rows)),
            after,
            progress,
        ),
        forall|j: int|
            0 <= j < rows@.len() ==> ((#[trigger] rows@[j]).kind matches Some(kind) && kind@
                != "plan"@) || rows@[j].plan_id@ != plan.id@,
    ensures
        after == moment.cache,
        progress matches Progress::Ask { call, then } && {
            &&& then == (Flow::NewTrial { who, provisioning })
            &&& call matches Call::CreateSubscription {
                customer_id,
                plan_id,
                payment_provider,
                period_start,
                period_end,
                trial_ends_at,
            }
            &&& customer_id == customer.id
            &&& plan_id == plan.id
            &&& payment_provider == moment.cfg.provider
            &&& period_start == moment.now
            &&& plan.period_end(moment.now) == Some(period_end)
            &&& trial_ends_at is Some
            &&& trial_ends_at == moment.now.days_later(moment.cfg.trial_days as int)
        },
{
    lemma_first_wanted_row(rows@, Some(plan.id@), false, rows@.len() as int);
}

/// A trial that core created is what the operation comes to.
pub proof fn law_created_trial_is_returned(
    moment: Moment,
    who: CompanyIdentity,
    created: Subscription,
    after: crate::billing::cache::StateCacheView,
    progress: Progress,
)
    requires
        moment.resumes(
            Flow::NewTrial { who, provisioning: false },
            Ok(Reply::Subscription(created)),
            after,
            progress,
        ),
    ensures
        progress == Progress::Done(Ok(Output::Trial(TrialOutcome::Created(created)))),
        !after.entries.contains_key(who.company_id@),
{
}

/// While provisioning, a row on the plan means that the state is read again: as the cache
/// has it, or from core, and no trial is started after it.
pub proof fn law_provisioning_reads_the_state_again(
    moment: Moment,
    who: CompanyIdentity,
    customer: Customer,
    plan: Plan,
    rows: Vec<Subscription>,
    i: int,
    after: crate::billing::cache::StateCacheView,
    progress: Progress,
)
    requires
        moment.resumes(
            Flow::Rows { who, goal: Goal::Trial { provisioning: true }, customer, plan },
            Ok(Reply::Subscriptions(rows)),
            after,
            progress,
        ),
        0 <= i < rows@.len(),
        rows@[i].kind matches Some(kind) ==> kind@ == "plan"@,
        rows@[i].plan_id@ == plan.id@,
    ensures
        after == moment.cache,
        match moment.cache.lookup(who.company_id@, moment.tick) {
            Some(state) => progress == Progress::Done(Ok(Output::State(state))),
            None => progress == (Progress::Ask {
                call: Call::FindCustomer { external_id: who.company_id },
                then: Flow::StateCustomer { company_id: who.company_id, provision: None },
            }),
        },
{
    lemma_found_row_is_wanted(rows@, Some(plan.id@), false);
    assert(is_wanted(rows@[i], Some(plan.id@), false));
}

/// A link is asked for the first plan row on the plan that is not ended, trial or not, with
/// the configured provider, the addresses as given, and the payer's email or else the
/// company's.
pub proof fn law_checkout_pays_for_the_first_open_row(
    moment: Moment,
    who: CompanyIdentity,
    back_url: String,
    success_url: Option<String>,
    payer_email: Option<String>,
    customer: Customer,
    plan: Plan,
    rows: Vec<Subscription>,
    i: int,
    after: crate::billing::cache::StateCacheView,
    progress: Progress,
)
    requires
        moment.resumes(
            Flow::Rows {
                who,
                goal: Goal::Checkout { back_url, success_url, payer_email },
                customer,
                plan,
            },
            Ok(Reply::Subscriptions(rows)),
            after,
            progress,
        ),
        0 <= i < rows@.len(),
        rows@[i].kind matches Some(kind) ==> kind@ == "plan"@,
        rows@[i].plan_id@ == plan.id@,
        rows@[i].status@ != "cancelled"@,
        rows@[i].status@ != "incomplete_expired"@,
        rows@[i].status@ != "expired"@,
        forall|j: int|
            0 <= j < i ==> ((#[trigger] rows@[j]).kind matches Some(kind) && kind@ != "plan"@)
                || rows@[j].plan_id@ != plan.id@ || rows@[j].status@ == "cancelled"@
                || rows@[j].status@ == "incomplete_expired"@ || rows@[j].status@ == "expired"@,
    ensures
        after == moment.cache,
        progress == (Progress::Ask {
            call: Call::InitiateCheckout {
                subscription_id: rows@[i].id,
                provider: moment.cfg.provider,
                customer_email: if payer_email is Some {
                    payer_email->0
                } else {
                    who.email
                },
                back_url,
                success_url,
            },
            then: Flow::Checkout { company_id: who.company_id },
        }),
{
    lemma_first_wanted_row(rows@, Some(plan.id@), true, i);
}

/// Where every plan row on the plan is ended, a checkout creates a subscription: for the
/// customer, on the plan, from now to the end of the plan's period, without a trial. What
/// core creates is then paid for.
pub proof fn law_checkout_creates_and_pays(
    moment: Moment,
    who: CompanyIdentity,
    back_url: String,
    success_url: Option<String>,
    payer_email: Option<String>,
    customer: Customer,
    plan: Plan,
    rows: Vec<Subscription>,
    created: Subscription,
    after: crate::billing::cache::StateCacheView,
    progress: Progress,
)
    requires
        moment.ready(
            Flow::Rows {
                who,
                goal: Goal::Checkout { back_url, success_url, payer_email },
                customer,
                plan,
            },
            Ok(Reply::Subscriptions(rows)),
        ),
        forall|j: int|
            0 <= j < rows@.len() ==> ((#[trigger] rows@[j]).kind matches Some(kind) && kind@
                != "plan"@) || rows@[j].plan_id@ != plan.id@ || rows@[j].status@ == "cancelled"@
                || rows@[j].status@ == "incomplete_expired"@ || rows@[j].status@ == "expired"@,
    ensures
        moment.resumes(
            Flow::Rows {
                who,
                goal: Goal::Checkout { back_url, success_url, payer_email },
                customer,
                plan,
            },
            Ok(Reply::Subscriptions(rows)),
            after,
            progress,
        ) ==> after == moment.cache && (progress matches Progress::Ask { call, then } && {
            &&& then == (Flow::NewSubscription { who, back_url, success_url, payer_email })
            &&& call matches Call::CreateSubscription {
                customer_id,
                plan_id,
                payment_provider,
                period_start,
                period_end,
                trial_ends_at,
            }
            &&& customer_id == customer.id
            &&& plan_id == plan.id
            &&& payment_provider == moment.cfg.provider
            &&& period_start == moment.now
            &&& plan.period_end(moment.now) == Some(period_end)
            &&& trial_ends_at is None
        }),
        moment.resumes(
            Flow::NewSubscription { who, back_url, success_url, payer_email },
            Ok(Reply::Subscription(created)),
            after,
            progress,
        ) ==> after == moment.cache && progress == (Progress::Ask {
            call: Call::InitiateCheckout {
                subscription_id: created.id,
                provider: moment.cfg.provider,
                customer_email: if payer_email is Some {
                    payer_email->0
                } else {
                    who.email
                },
                back_url,
                success_url,
            },
            then: Flow::Checkout { company_id: who.company_id },
        }),
{
    lemma_first_wanted_row(rows@, Some(plan.id@), true, rows@.len() as int);
}

/// A checkout comes to the link that core gave, as it is, or to why it gave none.
pub proof fn law_checkout_returns_the_link(
    moment: Moment,
    company_id: String,
    response: CheckoutResponse,
    after: crate::billing::cache::StateCacheView,
    progress: Progress,
)
    requires
        moment.resumes(
            Flow::Checkout { company_id },
            Ok(Reply::Checkout(response)),
            after,
            progress,
        ),
    ensures
        !after.entries.contains_key(company_id@),
        progress matches Progress::Done(Ok(Output::Checkout(outcome))) && {
            &&& response.checkout_url matches Some(url) ==> (outcome matches CheckoutOutcome::Url(
                link,
            ) && link@ == url@)
            &&& response.checkout_url is None ==> outcome is Declined
        },
{
}

/// The customer of a company is found or, where there is none, created with the company's
/// id, name and email; either way the plans are asked for next, for that customer.
pub proof fn law_customer_is_found_or_created(
    moment: Moment,
    who: CompanyIdentity,
    goal: Goal,
    found: Option<Customer>,
    created: Customer,
    after: crate::billing::cache::StateCacheView,
    progress: Progress,
)
    ensures
        moment.resumes(
            Flow::Customer { who, goal },
            Ok(Reply::Found(found)),
            after,
            progress,
        ) ==> after == moment.cache && match found {
            Some(customer) => progress == (Progress::Ask {
                call: Call::ListPlans,
                then: Flow::Plan { who, goal, customer },
            }),
            None => progress == (Progress::Ask {
                call: Call::CreateCustomer {
                    external_id: who.company_id,
                    name: who.name,
                    email: who.email,
                },
                then: Flow::NewCustomer { who, goal },
            }),
        },
        moment.resumes(
            Flow::NewCustomer { who, goal },
            Ok(Reply::Customer(created)),
            after,
            progress,
        ) ==> after == moment.cache && progress == (Progress::Ask {
            call: Call::ListPlans,
            then: Flow::Plan { who, goal, customer: created },
        }),
{
}

/// The question for a state: what is cached and fresh is the answer; otherwise the company's
/// customer is looked for, and where there is one, that customer's rows.
pub proof fn law_state_is_asked_of_core(
    moment: Moment,
    company_id: String,
    customer: Customer,
    after: crate::billing::cache::StateCacheView,
    progress: Progress,
)
    ensures
        match moment.cache.lookup(company_id@, moment.tick) {
            Some(state) => moment.cfg.looked_up(moment.cache, company_id, None, moment.tick)
                == Progress::Done(Ok(Output::State(state))),
            None => moment.cfg.looked_up(moment.cache, company_id, None, moment.tick) == (
            Progress::Ask {
                call: Call::FindCustomer { external_id: company_id },
                then: Flow::StateCustomer { company_id, provision: None },
            }),
        },
        moment.resumes(
            Flow::StateCustomer { company_id, provision: None },
            Ok(Reply::Found(Some(customer))),
            after,
            progress,
        ) ==> after == moment.cache && progress == (Progress::Ask {
            call: Call::CustomerSubscriptions { customer_id: customer.id },
            then: Flow::StateRows { company_id, provision: None },
        }),
{
}

/// The state that is handed out is that of the customer's rows at that moment, or of a
/// company that never subscribed where there is no customer; and it is what is cached for
/// the company from then on, for as long as the cache trusts it.
pub proof fn law_state_is_that_of_the_rows(
    moment: Moment,
    company_id: String,
    rows: Vec<Subscription>,
    after: crate::billing::cache::StateCacheView,
    progress: Progress,
    later: Nanos,
)
    requires
        moment.tick <= later,
        later < moment.tick + moment.cache.ttl,
    ensures
        moment.resumes(
            Flow::StateRows { company_id, provision: None },
            Ok(Reply::Subscriptions(rows)),
            after,
            progress,
        ) ==> (progress matches Progress::Done(Ok(Output::State(state))) && state@
            == crate::billing::state::resolved(rows@, moment.now) && after.lookup(
            company_id@,
            later,
        ) == Some(state)),
        moment.resumes(
            Flow::StateCustomer { company_id, provision: None },
            Ok(Reply::Found(None)),
            after,
            progress,
        ) ==> (progress matches Progress::Done(Ok(Output::State(state))) && state.kind
            == SubscriptionKind::NeverSubscribed && state.raw_status@ == "never_subscribed"@
            && state.plan_slug is None && state.trial_ends_at is None && state.grace_ends_at is None
            && after.lookup(company_id@, later) == Some(state)),
{
}

/// Provisioning starts a trial exactly for a company that never subscribed, where trial days
/// are given: its customer is looked for next. Any other state is handed out as it is.
pub proof fn law_provisioning_starts_a_trial_once(
    cfg: ServiceConfig,
    state: SubscriptionState,
    who: CompanyIdentity,
)
    ensures
        cfg.concluded(state, None) == Progress::Done(Ok(Output::State(state))),
        state.kind == SubscriptionKind::NeverSubscribed && cfg.trial_days > 0 ==> cfg.concluded(
            state,
            Some(who),
        ) == (Progress::Ask {
            call: Call::FindCustomer { external_id: who.company_id },
            then: Flow::Customer { who, goal: Goal::Trial { provisioning: true } },
        }),
        state.kind != SubscriptionKind::NeverSubscribed || cfg.trial_days <= 0 ==> cfg.concluded(
            state,
            Some(who),
        ) == Progress::Done(Ok(Output::State(state))),
{
}

/// Provisioning reads the state like any question for it: from the cache, or from core by
/// the same two calls, and then goes by what it found.
pub proof fn law_provisioning_reads_first(
    moment: Moment,
    who: CompanyIdentity,
    customer: Customer,
    rows: Vec<Subscription>,
    after: crate::billing::cache::StateCacheView,
    progress: Progress,
)
    ensures
        match moment.cache.lookup(who.company_id@, moment.tick) {
            Some(state) => moment.cfg.looked_up(
                moment.cache,
                who.company_id,
                Some(who),
                moment.tick,
            ) == moment.cfg.concluded(state, Some(who)),
            None => moment.cfg.looked_up(moment.cache, who.company_id, Some(who), moment.tick) == (
            Progress::Ask {
                call: Call::FindCustomer { external_id: who.company_id },
                then: Flow::StateCustomer { company_id: who.company_id, provision: Some(who) },
            }),
        },
        moment.resumes(
            Flow::StateCustomer { company_id: who.company_id, provision: Some(who) },
            Ok(Reply::Found(Some(customer))),
            after,
            progress,
        ) ==> after == moment.cache && progress == (Progress::Ask {
            call: Call::CustomerSubscriptions { customer_id: customer.id },
            then: Flow::StateRows { company_id: who.company_id, provision: Some(who) },
        }),
        moment.resumes(
            Flow::StateRows { company_id: who.company_id, provision: Some(who) },
            Ok(Reply::Subscriptions(rows)),
            after,
            progress,
        ) ==> exists|state: SubscriptionState|
            {
                &&& state@ == crate::billing::state::resolved(rows@, moment.now)
                &&& progress == #[trigger] moment.cfg.concluded(state, Some(who))
                &&& after.entries.contains_key(who.company_id@)
                &&& after.entries[who.company_id@].state == state
                &&& after.entries[who.company_id@].at == moment.tick
            },
        moment.resumes(
            Flow::StateCustomer { company_id: who.company_id, provision: Some(who) },
            Ok(Reply::Found(None)),
            after,
            progress,
        ) && moment.cfg.trial_days > 0 ==> progress == (Progress::Ask {
            call: Call::FindCustomer { external_id: who.company_id },
            then: Flow::Customer { who, goal: Goal::Trial { provisioning: true } },
        }),
{
    if moment.resumes(
        Flow::StateRows { company_id: who.company_id, provision: Some(who) },
        Ok(Reply::Subscriptions(rows)),
        after,
        progress,
    ) {
        let state = choose|state: SubscriptionState|
            {
                &&& state@ == crate::billing::state::resolved(rows@, moment.now)
                &&& after == #[trigger] moment.cache.stored(who.company_id@, state, moment.tick)
                &&& progress == moment.cfg.concluded(state, Some(who))
            };
        assert(progress == moment.cfg.concluded(state, Some(who)));
    }
}

/// A call that fails ends any operation with its own error, and a list of plans is handed
/// out as core gave it.
pub proof fn law_errors_and_plans_are_passed_on(
    moment: Moment,
    flow: Flow,
    error: BillingError,
    plans: Vec<Plan>,
    after: crate::billing::cache::StateCacheView,
    progress: Progress,
)
    ensures
        moment.resumes(flow, Err(error), after, progress) ==> after == moment.cache && progress
            == Progress::Done(Err(error)),
        moment.resumes(Flow::Plans, Ok(Reply::Plans(plans)), after, progress) ==> after
            == moment.cache && progress == Progress::Done(Ok(Output::Plans(plans))),
{
}

/// How each operation starts: the plans are listed; a trial, a link and a cancellation look
/// for the company's customer and keep what they were asked with.
pub proof fn law_operations_start(
    service: &BillingService,
    who: CompanyIdentity,
    back_url: String,
    success_url: Option<String>,
    payer_email: Option<String>,
    company_id: String,
    reason: Option<String>,
    plans: Progress,
    trial: Progress,
    checkout: Progress,
    cancel: Progress,
)
    requires
        call_ensures(BillingService::plans, (service,), plans),
        call_ensures(BillingService::ensure_trial, (service, who), trial),
        call_ensures(
            BillingService::checkout,
            (service, who, back_url, success_url, payer_email),
            checkout,
        ),
        call_ensures(BillingService::cancel, (service, company_id, reason), cancel),
    ensures
        plans == (Progress::Ask { call: Call::ListPlans, then: Flow::Plans }),
        trial == (Progress::Ask {
            call: Call::FindCustomer { external_id: who.company_id },
            then: Flow::Customer { who, goal: Goal::Trial { provisioning: false } },
        }),
        checkout == (Progress::Ask {
            call: Call::FindCustomer { external_id: who.company_id },
            then: Flow::Customer {
                who,
                goal: Goal::Checkout { back_url, success_url, payer_email },
            },
        }),
        cancel == (Progress::Ask {
            call: Call::FindCustomer { external_id: company_id },
            then: Flow::CancelCustomer { company_id, reason },
        }),
{
}

/// How a question for a state starts: with what is cached for the company and fresh, or by
/// looking for its customer. While provisioning, a cached state of a company that never
/// subscribed leads to its trial, if there are trial days to give.
pub proof fn law_questions_start(
    service: &BillingService,
    who: CompanyIdentity,
    company_id: String,
    tick: Nanos,
    asked: Progress,
    provisioned: Progress,
)
    requires
        call_ensures(BillingService::state, (service, company_id, tick), asked),
        call_ensures(BillingService::state_provisioning, (service, who, tick), provisioned),
    ensures
        match service.cache@.lookup(company_id@, tick) {
            Some(state) => asked == Progress::Done(Ok(Output::State(state))),
            None => asked == (Progress::Ask {
                call: Call::FindCustomer { external_id: company_id },
                then: Flow::StateCustomer { company_id, provision: None },
            }),
        },
        match service.cache@.lookup(who.company_id@, tick) {
            Some(state) => if state.kind == SubscriptionKind::NeverSubscribed
                && service.cfg.trial_days > 0 {
                provisioned == (Progress::Ask {
                    call: Call::FindCustomer { external_id: who.company_id },
                    then: Flow::Customer { who, goal: Goal::Trial { provisioning: true } },
                })
            } else {
                provisioned == Progress::Done(Ok(Output::State(state)))
            },
            None => provisioned == (Progress::Ask {
                call: Call::FindCustomer { external_id: who.company_id },
                then: Flow::StateCustomer { company_id: who.company_id, provision: Some(who) },
            }),
        },
{
}

/// A new service sells the plan it was told, with the trial days it was told, by
/// Mercado Pago; it trusts a state for a minute and has none cached.
pub proof fn law_new_services(
    plan_slug: &str,
    trial_days: i64,
    cfg: ServiceConfig,
    client: BillingClient,
    service: BillingService,
    company_id: Seq<char>,
    tick: Nanos,
)
    requires
        call_ensures(ServiceConfig::new, (plan_slug, trial_days), cfg),
        call_ensures(BillingService::new, (client, cfg), service),
    ensures
        cfg.plan_slug@ == plan_slug@,
        cfg.trial_days == trial_days,
        cfg.provider@ == "mercadopago"@,
        cfg.cache_ttl == 60_000_000_000,
        service.cfg == cfg,
        service.client == client,
        service.cache@.ttl == cfg.cache_ttl,
        service.cache@.lookup(company_id, tick) is None,
{
}

/// An operation can go on at any instant of the calendar with any reply of the kind that its
/// call has, and with any error. Only a subscription that would have to be created needs
/// more: dates that the calendar holds.
pub proof fn law_when_operations_can_go_on(
    moment: Moment,
    flow: Flow,
    reply: Reply,
    error: BillingError,
)
    requires
        moment.now.valid(),
    ensures
        moment.ready(flow, Err(error)),
        reply is Plans ==> (flow is Plans || flow is Plan ==> moment.ready(flow, Ok(reply))),
        reply is Found ==> (flow is StateCustomer || flow is Customer || flow is CancelCustomer
            ==> moment.ready(flow, Ok(reply))),
        reply is Customer ==> (flow is NewCustomer ==> moment.ready(flow, Ok(reply))),
        reply is Subscriptions ==> (flow is StateRows || flow is CancelRows ==> moment.ready(
            flow,
            Ok(reply),
        )),
        reply is Subscription ==> (flow is NewTrial || flow is NewSubscription ==> moment.ready(
            flow,
            Ok(reply),
        )),
        reply is Checkout ==> (flow is Checkout ==> moment.ready(flow, Ok(reply))),
        reply is Cancelled ==> (flow is Cancelling ==> moment.ready(flow, Ok(reply))),
        (flow matches Flow::Rows { goal, plan, .. } && reply is Subscriptions
            && plan.period_end(moment.now) is Some && (goal is Trial ==> moment.now.days_later(
            moment.cfg.trial_days as int,
        ) is Some)) ==> moment.ready(flow, Ok(reply)),
{
}

/// A step of an operation changes nothing of the service but its cache. A cancelled
/// subscription, a link and a new trial make it forget the company's state, and a failed
/// call makes it forget nothing.
pub proof fn law_steps_of_an_operation(
    service: &mut BillingService,
    flow: Flow,
    reply: Result<Reply, BillingError>,
    now: Timestamp,
    tick: Nanos,
    progress: Progress,
)
    requires
        call_ensures(BillingService::resume, (service, flow, reply, now, tick), progress),
    ensures
        final(service).client == old(service).client,
        final(service).cfg == old(service).cfg,
        final(service).cache@.ttl == old(service).cache@.ttl,
        old(service).at(now, tick).resumes(flow, reply, final(service).cache@, progress),
        reply matches Err(e) ==> progress == Progress::Done(Err(e)) && final(service).cache@ == old(service).cache@,
        reply is Ok && (flow is Cancelling || flow is Checkout || flow is NewTrial) ==> !final(service).cache@.entries.contains_key(flow.company()),
{
}

} // verus!
