//! What Huggian's customer / plan / subscription / checkout API speaks of.

use crate::text::same_text;
use crate::time::Timestamp;
use vstd::prelude::*;

verus! {

#[derive(Debug, Clone)]
pub struct Customer {
    pub id: String,
    pub email: Option<String>,
    pub external_id: Option<String>,
}

#[derive(Debug, Clone)]
pub struct Plan {
    pub id: String,
    pub name: String,
    pub slug: String,
    pub price_cents: i64,
    pub currency: String,
    pub interval: String,
    pub limits: Vec<PlanLimit>,
}

/// The interval of a plan that names none.
pub fn default_interval() -> (interval: String)
    ensures
        interval@ == "month"@,
{
    "month".to_string()
}

impl Plan {
    /// Whether the plan is billed by the year.
    pub open spec fn is_yearly(self) -> bool {
        self.interval@ == "year"@
    }

    /// Where a billing period that starts at `start` ends: twelve calendar months
    /// later for a yearly plan, thirty days later for any other. `None` outside the
    /// calendar.
    pub open spec fn period_end(self, start: Timestamp) -> Option<Timestamp> {
        if self.is_yearly() {
            start.months_later(12)
        } else {
            start.days_later(30)
        }
    }

    /// Monthly and annual are the only contracts; anything else is treated as
    /// monthly, matching the missing-field default.
    #[must_use]
    pub fn normalized_interval(&self) -> (interval: &'static str)
        ensures
            interval == if self.is_yearly() {
                "year"
            } else {
                "month"
            },
    {
        if same_text(self.interval.as_str(), "year") {
            "year"
        } else {
            "month"
        }
    }

    /// End of the first billing period, `None` outside the calendar.
    pub fn checked_period_end_from(&self, start: Timestamp) -> (end: Option<Timestamp>)
        requires
            start.valid(),
        ensures
            end == self.period_end(start),
            end matches Some(at) ==> at.valid(),
    {
        proof {
            reveal_strlit("year");
            reveal_strlit("month");
            assert("year"@.len() != "month"@.len());
        }
        if same_text(self.normalized_interval(), "year") {
            start.checked_add_year()
        } else {
            start.checked_add_days(30)
        }
    }

    /// End of the first billing period. Core rejects a subscription whose
    /// `currentPeriodEnd` is not exactly this (month = +30 days, year = +12
    /// months), so the trial length goes in `trialEndsAt`, never here.
    #[must_use]
    pub fn period_end_from(&self, start: Timestamp) -> (end: Timestamp)
        requires
            start.valid(),
            self.period_end(start) is Some,
        ensures
            self.period_end(start) == Some(end),
            end.valid(),
    {
        self.checked_period_end_from(start).unwrap()
    }
}

#[derive(Debug, Clone)]
pub struct PlanLimit {
    pub key: String,
    pub value: i32,
}

/// Plan capacity plus add-on grants for one resource.
#[derive(Debug, Clone)]
pub struct EffectiveLimit {
    pub key: String,
    pub value: i32,
    pub plan_value: i32,
    pub addon_value: i32,
}

#[derive(Debug, Clone)]
pub struct Subscription {
    pub id: String,
    pub status: String,
    pub plan_id: String,
    pub plan: Option<Plan>,
    /// RFC 3339.
    pub trial_ends_at: Option<String>,
    /// RFC 3339.
    pub current_period_end: Option<String>,
    /// `"plan" | "addon"`. Absent means a plan: a core that predates the split
    /// only ever had plans. See [`Subscription::is_plan`].
    pub kind: Option<String>,
    /// Null when `plan` is null (customer with no plan) or on an old core.
    pub effective_limits: Option<Vec<EffectiveLimit>>,
}

impl Subscription {
    /// Whether the row is a plan's.
    pub open spec fn plan_row(self) -> bool {
        match self.kind {
            None => true,
            Some(kind) => kind@ == "plan"@,
        }
    }

    /// Whether the status leaves the subscription open.
    pub open spec fn open(self) -> bool {
        &&& self.status@ != "cancelled"@
        &&& self.status@ != "incomplete_expired"@
        &&& self.status@ != "expired"@
    }

    /// True for a plan row or a row from a core that predates `kind`. Fail
    /// restrictive: any other value (a future third kind, wrong case) is not a plan.
    #[must_use]
    pub fn is_plan(&self) -> (plan: bool)
        ensures
            plan == self.plan_row(),
    {
        match &self.kind {
            None => true,
            Some(kind) => same_text(kind.as_str(), "plan"),
        }
    }

    /// Statuses core treats as terminal (they free the "one open subscription
    /// per customer+plan" slot). Everything else counts as open.
    #[must_use]
    pub fn is_open(&self) -> (open: bool)
        ensures
            open == self.open(),
    {
        !same_text(self.status.as_str(), "cancelled") && !same_text(
            self.status.as_str(),
            "incomplete_expired",
        ) && !same_text(self.status.as_str(), "expired")
    }
}

/// What `POST /v1/payments/checkout` answered.
#[derive(Debug, Clone)]
pub struct CheckoutResponse {
    pub checkout_url: Option<String>,
    pub reason: Option<String>,
}

/// The result of asking for a payment link. A declined checkout is a normal
/// answer (HTTP 201 with `checkoutUrl: null` + a `reason`), not an error.
#[derive(Debug, Clone, PartialEq, Eq)]
pub enum CheckoutOutcome {
    Url(String),
    Declined(CheckoutDeclined),
}

#[derive(Debug, Clone, PartialEq, Eq)]
pub enum CheckoutDeclined {
    /// A payment authorisation is already waiting for the payer.
    AlreadyPending,
    /// The payment provider could not be reached.
    ProviderUnreachable,
    /// An older authorisation could not be cancelled before minting a new one.
    StalePreapprovalCancelFailed,
    /// A reason this version does not know, carried through verbatim.
    Other(String),
}

/// A [`CheckoutDeclined`], its text as a sequence of characters.
pub enum CheckoutDeclinedView {
    AlreadyPending,
    ProviderUnreachable,
    StalePreapprovalCancelFailed,
    Other(Seq<char>),
}

/// A [`CheckoutOutcome`], its texts as sequences of characters.
pub enum CheckoutOutcomeView {
    Url(Seq<char>),
    Declined(CheckoutDeclinedView),
}

impl View for CheckoutDeclined {
    type V = CheckoutDeclinedView;

    open spec fn view(&self) -> CheckoutDeclinedView {
        match *self {
            CheckoutDeclined::AlreadyPending => CheckoutDeclinedView::AlreadyPending,
            CheckoutDeclined::ProviderUnreachable => CheckoutDeclinedView::ProviderUnreachable,
            CheckoutDeclined::StalePreapprovalCancelFailed =>
                CheckoutDeclinedView::StalePreapprovalCancelFailed,
            CheckoutDeclined::Other(reason) => CheckoutDeclinedView::Other(reason@),
        }
    }
}

impl View for CheckoutOutcome {
    type V = CheckoutOutcomeView;

    open spec fn view(&self) -> CheckoutOutcomeView {
        match *self {
            CheckoutOutcome::Url(url) => CheckoutOutcomeView::Url(url@),
            CheckoutOutcome::Declined(why) => CheckoutOutcomeView::Declined(why@),
        }
    }
}

impl CheckoutResponse {
    /// What the answer means: a link wins over any reason, and a refusal without a
    /// reason is told as `no_checkout_url`.
    pub open spec fn outcome(self) -> CheckoutOutcomeView {
        match self.checkout_url {
            Some(url) => CheckoutOutcomeView::Url(url@),
            None => CheckoutOutcomeView::Declined(
                match self.reason {
                    None => CheckoutDeclinedView::Other("no_checkout_url"@),
                    Some(reason) => if reason@ == "checkout_already_pending"@ {
                        CheckoutDeclinedView::AlreadyPending
                    } else if reason@ == "provider_unreachable"@ {
                        CheckoutDeclinedView::ProviderUnreachable
                    } else if reason@ == "stale_preapproval_cancel_failed"@ {
                        CheckoutDeclinedView::StalePreapprovalCancelFailed
                    } else {
                        CheckoutDeclinedView::Other(reason@)
                    },
                },
            ),
        }
    }
}

impl vstd::std_specs::convert::FromSpecImpl<CheckoutResponse> for CheckoutOutcome {
    open spec fn obeys_from_spec() -> bool {
        false
    }

    open spec fn from_spec(r: CheckoutResponse) -> Self {
        arbitrary()
    }
}

impl From<CheckoutResponse> for CheckoutOutcome {
    fn from(r: CheckoutResponse) -> (outcome: Self)
        ensures
            outcome@ == r.outcome(),
    {
        if let Some(url) = r.checkout_url {
            return CheckoutOutcome::Url(url);
        }
        CheckoutOutcome::Declined(
            match r.reason {
                None => CheckoutDeclined::Other("no_checkout_url".to_string()),
                Some(reason) => if same_text(reason.as_str(), "checkout_already_pending") {
                    CheckoutDeclined::AlreadyPending
                } else if same_text(reason.as_str(), "provider_unreachable") {
                    CheckoutDeclined::ProviderUnreachable
                } else if same_text(reason.as_str(), "stale_preapproval_cancel_failed") {
                    CheckoutDeclined::StalePreapprovalCancelFailed
                } else {
                    CheckoutDeclined::Other(reason)
                },
            },
        )
    }
}

/// A row is a plan's exactly when it says so or says nothing, letter for letter.
pub proof fn law_plan_rows_by_kind(sub: Subscription)
    ensures
        sub.kind is None ==> sub.plan_row(),
        sub.kind matches Some(kind) ==> (sub.plan_row() <==> kind@ == "plan"@),
{
}

/// A subscription is open unless its status is one of three that end it; its kind and its
/// dates have no say.
pub proof fn law_open_by_status(sub: Subscription)
    ensures
        !sub.open() <==> sub.status@ == "cancelled"@ || sub.status@ == "incomplete_expired"@
            || sub.status@ == "expired"@,
{
}

/// A period lasts thirty days, whatever the interval is called, unless the plan is yearly:
/// then it lasts the twelve months, which are 365 or 366 days.
pub proof fn law_period_lengths(plan: Plan, start: Timestamp)
    requires
        start.valid(),
        start.nanos < crate::time::SECOND_NANOS,
    ensures
        plan.interval@ != "year"@ ==> {
            &&& plan.period_end(start) is Some <==> start.secs + 2_592_000 <= crate::time::MAX_SECS
            &&& plan.period_end(start) matches Some(end) ==> end.secs == start.secs + 2_592_000
                && end.nanos == start.nanos
        },
        plan.interval@ == "year"@ ==> {
            &&& plan.period_end(start) == start.months_later(12)
            &&& plan.period_end(start) is Some <==> start.secs + 31_536_000
                <= crate::time::MAX_SECS
            &&& plan.period_end(start) matches Some(end) ==> end.nanos == start.nanos && (end.secs
                == start.secs + 31_536_000 || end.secs == start.secs + 31_622_400)
        },
{
    crate::time::law_twelve_months_later(start);
}

/// The price, the names and the limits of a plan do not move its period.
pub proof fn law_only_the_interval_counts(plan: Plan, other: Plan, start: Timestamp)
    requires
        plan.interval@ == other.interval@,
    ensures
        plan.period_end(start) == other.period_end(start),
{
}

/// A link is passed on as it is, whatever the reason; without one each known reason is
/// told by its own answer, and any other word for word.
pub proof fn law_checkout_outcomes(r: CheckoutResponse)
    ensures
        r.checkout_url matches Some(url) ==> r.outcome() == CheckoutOutcomeView::Url(url@),
        r.checkout_url is None ==> r.outcome() is Declined,
        r.checkout_url is None && r.reason is None ==> r.outcome() == CheckoutOutcomeView::Declined(
            CheckoutDeclinedView::Other("no_checkout_url"@),
        ),
        r.checkout_url is None ==> (r.reason matches Some(reason) ==> {
            let why = r.outcome()->Declined_0;
            &&& why is AlreadyPending <==> reason@ == "checkout_already_pending"@
            &&& why is ProviderUnreachable <==> reason@ == "provider_unreachable"@
            &&& why is StalePreapprovalCancelFailed <==> reason@
                == "stale_preapproval_cancel_failed"@
            &&& why matches CheckoutDeclinedView::Other(told) ==> told == reason@
        }),
{
    reveal_strlit("checkout_already_pending");
    reveal_strlit("provider_unreachable");
    reveal_strlit("stale_preapproval_cancel_failed");
    assert("checkout_already_pending"@[0] == 'c' && "provider_unreachable"@[0] == 'p');
    assert("stale_preapproval_cancel_failed"@[0] == 's');
}

/// Outcomes are told apart by what they hold.
pub proof fn law_outcomes_keep_their_texts(url: String, reason: String)
    ensures
        CheckoutOutcome::Url(url)@ == CheckoutOutcomeView::Url(url@),
        CheckoutOutcome::Declined(CheckoutDeclined::Other(reason))@
            == CheckoutOutcomeView::Declined(CheckoutDeclinedView::Other(reason@)),
        CheckoutOutcome::Declined(CheckoutDeclined::AlreadyPending)@
            == CheckoutOutcomeView::Declined(CheckoutDeclinedView::AlreadyPending),
        CheckoutOutcome::Declined(CheckoutDeclined::ProviderUnreachable)@
            == CheckoutOutcomeView::Declined(CheckoutDeclinedView::ProviderUnreachable),
        CheckoutOutcome::Declined(CheckoutDeclined::StalePreapprovalCancelFailed)@
            == CheckoutOutcomeView::Declined(CheckoutDeclinedView::StalePreapprovalCancelFailed),
{
}

/// A plan is shown by the year or by the month, and by the month where it names neither.
pub proof fn law_shown_interval(plan: &Plan, interval: &'static str, default: String)
    requires
        call_ensures(Plan::normalized_interval, (plan,), interval),
        call_ensures(default_interval, (), default),
    ensures
        plan.interval@ == "year"@ ==> interval@ == "year"@,
        plan.interval@ != "year"@ ==> interval@ == "month"@,
        plan.interval@ == default@ ==> interval@ == "month"@,
        default@ == "month"@,
{
    reveal_strlit("year");
    reveal_strlit("month");
    assert("year"@.len() != "month"@.len());
}

} // verus!
