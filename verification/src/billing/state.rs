//! Pure subscription-state rules: no I/O, `now` is injected so every branch is
//! testable without a clock. Each product interprets `plan_slug` itself.

use crate::billing::types::Subscription;
use crate::text::same_text;
use crate::time::Timestamp;
use vstd::prelude::*;

verus! {

/// How long a `past_due` subscription keeps granting access after its period ends.
pub const GRACE_DAYS: i64 = 7;

#[derive(Debug, Clone, Copy, PartialEq, Eq, Structural)]
pub enum SubscriptionKind {
    NeverSubscribed,
    TrialActive,
    Active,
    PastDue,
    TrialExpired,
    Cancelled,
}

impl SubscriptionKind {
    /// The kind's name on the wire.
    pub open spec fn wire_name(self) -> &'static str {
        match self {
            SubscriptionKind::NeverSubscribed => "never_subscribed",
            SubscriptionKind::TrialActive => "trial_active",
            SubscriptionKind::Active => "active",
            SubscriptionKind::PastDue => "past_due",
            SubscriptionKind::TrialExpired => "trial_expired",
            SubscriptionKind::Cancelled => "cancelled",
        }
    }

    /// The kind's name on the wire, in snake case.
    pub fn as_str(self) -> (name: &'static str)
        ensures
            name == self.wire_name(),
    {
        match self {
            SubscriptionKind::NeverSubscribed => "never_subscribed",
            SubscriptionKind::TrialActive => "trial_active",
            SubscriptionKind::Active => "active",
            SubscriptionKind::PastDue => "past_due",
            SubscriptionKind::TrialExpired => "trial_expired",
            SubscriptionKind::Cancelled => "cancelled",
        }
    }
}

#[derive(Debug, PartialEq, Eq)]
pub struct SubscriptionState {
    pub kind: SubscriptionKind,
    pub plan_slug: Option<String>,
    /// Huggian's own status string, for display/debugging.
    pub raw_status: String,
    pub trial_ends_at: Option<Timestamp>,
    /// Only set while `PastDue`: when access stops.
    pub grace_ends_at: Option<Timestamp>,
}

impl Clone for SubscriptionState {
    fn clone(&self) -> (copy: Self)
        ensures
            copy == *self,
    {
        SubscriptionState {
            kind: self.kind,
            plan_slug: match &self.plan_slug {
                Some(slug) => Some(slug.clone()),
                None => None,
            },
            raw_status: self.raw_status.clone(),
            trial_ends_at: self.trial_ends_at,
            grace_ends_at: self.grace_ends_at,
        }
    }
}

/// A [`SubscriptionState`], its texts as sequences of characters.
pub struct SubscriptionStateView {
    pub kind: SubscriptionKind,
    pub plan_slug: Option<Seq<char>>,
    pub raw_status: Seq<char>,
    pub trial_ends_at: Option<Timestamp>,
    pub grace_ends_at: Option<Timestamp>,
}

impl View for SubscriptionState {
    type V = SubscriptionStateView;

    open spec fn view(&self) -> SubscriptionStateView {
        SubscriptionStateView {
            kind: self.kind,
            plan_slug: self.plan_slug.deep_view(),
            raw_status: self.raw_status@,
            trial_ends_at: self.trial_ends_at,
            grace_ends_at: self.grace_ends_at,
        }
    }
}

impl SubscriptionStateView {
    /// The state of a customer without any plan subscription.
    pub open spec fn never_subscribed() -> SubscriptionStateView {
        SubscriptionStateView {
            kind: SubscriptionKind::NeverSubscribed,
            plan_slug: None,
            raw_status: "never_subscribed"@,
            trial_ends_at: None,
            grace_ends_at: None,
        }
    }

    /// Whether the product may be used.
    pub open spec fn access(self) -> bool {
        ||| self.kind == SubscriptionKind::Active
        ||| self.kind == SubscriptionKind::TrialActive
        ||| self.kind == SubscriptionKind::PastDue
    }

    /// Whether the state is that of a trial, running or over.
    pub open spec fn in_trial(self) -> bool {
        ||| self.kind == SubscriptionKind::TrialActive
        ||| self.kind == SubscriptionKind::TrialExpired
    }

    /// The whole days left in the trial, zero when it is over; `None` outside a trial.
    pub open spec fn trial_days(self, now: Timestamp) -> Option<int> {
        match self.trial_ends_at {
            Some(end) if self.in_trial() => Some(
                if end.whole_days_since(now) > 0 {
                    end.whole_days_since(now)
                } else {
                    0
                },
            ),
            _ => None,
        }
    }
}

impl SubscriptionState {
    /// Whether the dates of the state lie within the calendar.
    pub open spec fn dated(self) -> bool {
        &&& self.trial_ends_at matches Some(end) ==> end.valid()
        &&& self.grace_ends_at matches Some(deadline) ==> deadline.valid()
    }

    /// Whether the dates of the state lie within the calendar.
    pub fn is_dated(&self) -> (dated: bool)
        ensures
            dated == self.dated(),
    {
        let trial = match self.trial_ends_at {
            Some(end) => end.is_valid(),
            None => true,
        };
        let grace = match self.grace_ends_at {
            Some(deadline) => deadline.is_valid(),
            None => true,
        };
        trial && grace
    }

    #[must_use]
    pub fn never_subscribed() -> (state: Self)
        ensures
            state@ == SubscriptionStateView::never_subscribed(),
    {
        SubscriptionState {
            kind: SubscriptionKind::NeverSubscribed,
            plan_slug: None,
            raw_status: "never_subscribed".to_string(),
            trial_ends_at: None,
            grace_ends_at: None,
        }
    }

    /// Paying, in trial, or in the past-due grace window.
    #[must_use]
    pub fn grants_access(&self) -> (access: bool)
        ensures
            access == self@.access(),
    {
        self.kind == SubscriptionKind::Active || self.kind == SubscriptionKind::TrialActive
            || self.kind == SubscriptionKind::PastDue
    }

    /// Whole days left in the trial (never negative). `None` outside a trial.
    #[must_use]
    pub fn trial_days_remaining(&self, now: Timestamp) -> (days: Option<i64>)
        requires
            self@.in_trial() && self.trial_ends_at is Some ==> now.valid()
                && self.trial_ends_at->0.valid(),
        ensures
            match days {
                Some(days) => self@.trial_days(now) == Some(days as int),
                None => self@.trial_days(now) is None,
            },
    {
        if self.kind == SubscriptionKind::TrialActive || self.kind
            == SubscriptionKind::TrialExpired {
            match self.trial_ends_at {
                Some(end) => {
                    let days: i64 = end.days_after(now);
                    if days > 0 {
                        Some(days)
                    } else {
                        Some(0)
                    }
                },
                None => None,
            }
        } else {
            None
        }
    }
}

/// The instant an RFC 3339 text stands for, if it is one.
pub open spec fn instant_of(text: Seq<char>) -> Option<Timestamp> {
    match crate::time::rfc3339_instant(text) {
        Some((secs, nanos)) => Some(Timestamp { secs, nanos }),
        None => None,
    }
}

/// The instant a field of a subscription row stands for, if it is there and is one.
pub open spec fn field_instant(text: Option<String>) -> Option<Timestamp> {
    match text {
        Some(text) => instant_of(text@),
        None => None,
    }
}

/// Reads an RFC 3339 text in UTC.
pub fn parse_dt(s: &str) -> (at: Option<Timestamp>)
    ensures
        at == instant_of(s@),
        at matches Some(at) ==> at.valid() && at.days_later(GRACE_DAYS as int) is Some,
{
    Timestamp::parse_rfc3339(s)
}

fn parse_field(text: &Option<String>) -> (at: Option<Timestamp>)
    ensures
        at == field_instant(*text),
        at matches Some(at) ==> at.valid() && at.days_later(GRACE_DAYS as int) is Some,
{
    match text {
        Some(text) => parse_dt(text.as_str()),
        None => None,
    }
}

/// The first row that is a plan's.
pub open spec fn first_plan_row(subs: Seq<Subscription>) -> Option<Subscription>
    decreases subs.len(),
{
    if subs.len() == 0 {
        None
    } else if subs[0].plan_row() {
        Some(subs[0])
    } else {
        first_plan_row(subs.drop_first())
    }
}

/// Whether a status means that a payment is owed.
pub open spec fn is_past_due_status(status: Seq<char>) -> bool {
    status == "past_due"@ || status == "unpaid"@
}

/// What a plan row's status amounts to at `now`.
pub open spec fn row_kind(
    status: Seq<char>,
    trial_end: Option<Timestamp>,
    period_end: Option<Timestamp>,
    now: Timestamp,
) -> SubscriptionKind {
    if status == "active"@ {
        SubscriptionKind::Active
    } else if status == "trialing"@ {
        match trial_end {
            Some(end) if now.before(end) => SubscriptionKind::TrialActive,
            _ => SubscriptionKind::TrialExpired,
        }
    } else if is_past_due_status(status) {
        match period_end {
            Some(end) if !end.days_later(GRACE_DAYS as int)->0.before(now) =>
                SubscriptionKind::PastDue,
            _ => SubscriptionKind::Cancelled,
        }
    } else {
        SubscriptionKind::Cancelled
    }
}

/// The state a plan row gives at `now`, its two dates already read.
pub open spec fn row_state(
    sub: Subscription,
    trial_end: Option<Timestamp>,
    period_end: Option<Timestamp>,
    now: Timestamp,
) -> SubscriptionStateView {
    let kind = row_kind(sub.status@, trial_end, period_end, now);
    SubscriptionStateView {
        kind,
        plan_slug: match sub.plan {
            Some(plan) => Some(plan.slug@),
            None => None,
        },
        raw_status: sub.status@,
        trial_ends_at: trial_end,
        grace_ends_at: if kind == SubscriptionKind::PastDue {
            period_end->0.days_later(GRACE_DAYS as int)
        } else {
            None
        },
    }
}

/// The state a customer's rows give at `now`.
pub open spec fn resolved(subs: Seq<Subscription>, now: Timestamp) -> SubscriptionStateView {
    match first_plan_row(subs) {
        Some(sub) => row_state(
            sub,
            field_instant(sub.trial_ends_at),
            field_instant(sub.current_period_end),
            now,
        ),
        None => SubscriptionStateView::never_subscribed(),
    }
}

/// The state of one plan row, its two dates already read.
pub fn resolve_row(
    sub: &Subscription,
    trial_end: Option<Timestamp>,
    period_end: Option<Timestamp>,
    now: Timestamp,
) -> (state: SubscriptionState)
    requires
        is_past_due_status(sub.status@) && period_end is Some ==> period_end->0.valid()
            && period_end->0.days_later(GRACE_DAYS as int) is Some,
    ensures
        state@ == row_state(*sub, trial_end, period_end, now),
        state.kind == SubscriptionKind::PastDue <==> state.grace_ends_at is Some,
        state.grace_ends_at matches Some(deadline) ==> !deadline.before(now),
        state.grace_ends_at matches Some(deadline) ==> deadline.valid(),
{
    let status = sub.status.as_str();
    let mut grace_ends_at: Option<Timestamp> = None;
    let kind = if same_text(status, "active") {
        SubscriptionKind::Active
    } else if same_text(status, "trialing") {
        match trial_end {
            Some(end) => if now.is_before(end) {
                SubscriptionKind::TrialActive
            } else {
                SubscriptionKind::TrialExpired
            },
            None => SubscriptionKind::TrialExpired,
        }
    } else if same_text(status, "past_due") || same_text(status, "unpaid") {
        match period_end {
            Some(end) => {
                let deadline = end.checked_add_days(GRACE_DAYS).unwrap();
                if deadline.is_before(now) {
                    SubscriptionKind::Cancelled
                } else {
                    grace_ends_at = Some(deadline);
                    SubscriptionKind::PastDue
                }
            },
            None => SubscriptionKind::Cancelled,
        }
    } else {
        SubscriptionKind::Cancelled
    };
    SubscriptionState {
        kind,
        plan_slug: match &sub.plan {
            Some(plan) => Some(plan.slug.clone()),
            None => None,
        },
        raw_status: sub.status.clone(),
        trial_ends_at: trial_end,
        grace_ends_at,
    }
}

/// The customer's state from their subscriptions. The first plan-kind row wins
/// (core returns the relevant one first); no plan row means `NeverSubscribed`.
#[must_use]
pub fn resolve_state(subs: &[Subscription], now: Timestamp) -> (state: SubscriptionState)
    ensures
        state@ == resolved(subs@, now),
        state.dated(),
        state.kind == SubscriptionKind::PastDue <==> state.grace_ends_at is Some,
        state.grace_ends_at matches Some(deadline) ==> !deadline.before(now),
{
    let mut i: usize = 0;
    proof {
        assert(subs@.skip(0) =~= subs@);
    }
    while i < subs.len()
        invariant
            i <= subs@.len(),
            first_plan_row(subs@.skip(i as int)) == first_plan_row(subs@),
        decreases subs@.len() - i,
    {
        proof {
            assert(subs@.skip(i as int).drop_first() =~= subs@.skip(i + 1));
        }
        if subs[i].is_plan() {
            let trial_end = parse_field(&subs[i].trial_ends_at);
            let period_end = parse_field(&subs[i].current_period_end);
            return resolve_row(&subs[i], trial_end, period_end, now);
        }
        i = i + 1;
    }
    SubscriptionState::never_subscribed()
}

/// Only a `PastDue` state carries a deadline, and it grants access until then.
pub proof fn law_only_past_due_has_a_deadline(subs: Seq<Subscription>, now: Timestamp)
    requires
        first_plan_row(subs) matches Some(sub) ==> (field_instant(
            sub.current_period_end,
        ) matches Some(end) ==> end.days_later(GRACE_DAYS as int) is Some),
    ensures
        resolved(subs, now).grace_ends_at is Some <==> resolved(subs, now).kind
            == SubscriptionKind::PastDue,
        resolved(subs, now).grace_ends_at matches Some(deadline) ==> !deadline.before(now),
{
}

/// The grace window is inclusive: a past-due row grants access up to and at the
/// end of its grace days, and not an instant later.
pub proof fn law_grace_boundary_is_inclusive(
    sub: Subscription,
    trial_end: Option<Timestamp>,
    period_end: Timestamp,
    now: Timestamp,
)
    requires
        is_past_due_status(sub.status@),
        period_end.days_later(GRACE_DAYS as int) is Some,
    ensures
        ({
            let deadline = period_end.days_later(GRACE_DAYS as int)->0;
            row_state(sub, trial_end, Some(period_end), now).access() <==> !deadline.before(now)
        }),
        ({
            let deadline = period_end.days_later(GRACE_DAYS as int)->0;
            row_state(sub, trial_end, Some(period_end), deadline).kind == SubscriptionKind::PastDue
        }),
{
    lemma_status_names_differ();
}

/// A trial grants access exactly until it ends.
pub proof fn law_trial_grants_access_until_it_ends(
    sub: Subscription,
    trial_end: Option<Timestamp>,
    period_end: Option<Timestamp>,
    now: Timestamp,
)
    requires
        sub.status@ == "trialing"@,
    ensures
        row_state(sub, trial_end, period_end, now).access() <==> (trial_end matches Some(end)
            && now.before(end)),
        row_state(sub, trial_end, period_end, now).in_trial(),
{
    lemma_status_names_differ();
}

/// The statuses that the rules tell apart are different texts.
proof fn lemma_status_names_differ()
    ensures
        "trialing"@ != "active"@,
        "past_due"@ != "active"@,
        "past_due"@ != "trialing"@,
        "unpaid"@ != "active"@,
        "unpaid"@ != "trialing"@,
{
    reveal_strlit("active");
    reveal_strlit("trialing");
    reveal_strlit("past_due");
    reveal_strlit("unpaid");
    assert("active"@[0] == 'a' && "trialing"@[0] == 't');
    assert("past_due"@[0] == 'p' && "unpaid"@[0] == 'u');
}

/// A status outside the known ones grants nothing, whatever the dates say.
pub proof fn law_unknown_status_is_cancelled(
    sub: Subscription,
    trial_end: Option<Timestamp>,
    period_end: Option<Timestamp>,
    now: Timestamp,
)
    requires
        sub.status@ != "active"@,
        sub.status@ != "trialing"@,
        !is_past_due_status(sub.status@),
    ensures
        row_state(sub, trial_end, period_end, now).kind == SubscriptionKind::Cancelled,
        !row_state(sub, trial_end, period_end, now).access(),
{
}

/// Access that has ended stays ended: without a change in the rows, no later
/// instant grants it again.
pub proof fn law_ended_access_stays_ended(subs: Seq<Subscription>, now: Timestamp, later: Timestamp)
    requires
        !later.before(now),
        !resolved(subs, now).access(),
    ensures
        !resolved(subs, later).access(),
{
}

/// Trial days are counted for a trial only, and are never negative.
pub proof fn law_trial_days_are_never_negative(state: SubscriptionStateView, now: Timestamp)
    ensures
        state.trial_days(now) is Some <==> state.in_trial() && state.trial_ends_at is Some,
        state.trial_days(now) matches Some(days) ==> days >= 0,
{
}

/// Rows that are not a plan's never decide: dropping them leaves the state as it is.
pub proof fn law_addon_rows_never_decide(subs: Seq<Subscription>, now: Timestamp)
    ensures
        resolved(subs.filter(|sub: Subscription| sub.plan_row()), now) == resolved(subs, now),
{
    lemma_first_plan_row_of_plan_rows(subs);
}

proof fn lemma_first_plan_row_of_plan_rows(subs: Seq<Subscription>)
    ensures
        first_plan_row(subs.filter(|sub: Subscription| sub.plan_row())) == first_plan_row(subs),
    decreases subs.len(),
{
    let keep = |sub: Subscription| sub.plan_row();
    reveal_with_fuel(Seq::filter, 2);
    if subs.len() > 0 {
        let rest = subs.drop_first();
        lemma_first_plan_row_of_plan_rows(rest);
        let head = seq![subs[0]];
        assert(subs =~= head + rest);
        Seq::filter_distributes_over_add(head, rest, keep);
        assert(head.drop_last() =~= Seq::<Subscription>::empty());
        if subs[0].plan_row() {
            assert(head.filter(keep) =~= head);
            assert(subs.filter(keep)[0] == subs[0]);
        } else {
            assert(head.filter(keep) =~= Seq::<Subscription>::empty());
            assert(subs.filter(keep) =~= rest.filter(keep));
        }
    }
}

/// An active status decides alone: the row is active and grants access, whatever its dates
/// and the clock say.
pub proof fn law_active_is_active(
    sub: Subscription,
    trial_end: Option<Timestamp>,
    period_end: Option<Timestamp>,
    now: Timestamp,
)
    requires
        sub.status@ == "active"@,
    ensures
        row_state(sub, trial_end, period_end, now).kind == SubscriptionKind::Active,
        row_state(sub, trial_end, period_end, now).access(),
        row_state(sub, trial_end, period_end, now).grace_ends_at is None,
{
}

/// A trial is active before its end and expired from there on; without an end it is
/// expired. The period has no say.
pub proof fn law_trials_by_their_end(
    sub: Subscription,
    trial_end: Option<Timestamp>,
    period_end: Option<Timestamp>,
    now: Timestamp,
)
    requires
        sub.status@ == "trialing"@,
    ensures
        ({
            let kind = row_state(sub, trial_end, period_end, now).kind;
            &&& kind == SubscriptionKind::TrialActive || kind == SubscriptionKind::TrialExpired
            &&& trial_end is None ==> kind == SubscriptionKind::TrialExpired
            &&& trial_end matches Some(end) ==> (kind == SubscriptionKind::TrialActive <==> (
            now.secs < end.secs || (now.secs == end.secs && now.nanos < end.nanos)))
        }),
{
    lemma_status_names_differ();
}

/// A payment that is owed leaves seven days of access from the end of the period, to the
/// nanosecond, and tells when they end; without a period end it leaves none. The trial has
/// no say.
pub proof fn law_grace_is_seven_days(
    sub: Subscription,
    trial_end: Option<Timestamp>,
    period_end: Option<Timestamp>,
    now: Timestamp,
)
    requires
        sub.status@ == "past_due"@ || sub.status@ == "unpaid"@,
        period_end matches Some(end) ==> end.valid() && end.nanos < crate::time::SECOND_NANOS
            && end.secs + 604_800 <= crate::time::MAX_SECS,
    ensures
        ({
            let state = row_state(sub, trial_end, period_end, now);
            &&& period_end is None ==> state.kind == SubscriptionKind::Cancelled
            &&& period_end matches Some(end) ==> {
                let within = now.secs < end.secs + 604_800 || (now.secs == end.secs + 604_800
                    && now.nanos <= end.nanos);
                &&& within ==> state.kind == SubscriptionKind::PastDue && state.access()
                &&& !within ==> state.kind == SubscriptionKind::Cancelled && !state.access()
                &&& within ==> (state.grace_ends_at matches Some(deadline) && deadline.secs
                    == end.secs + 604_800 && deadline.nanos == end.nanos)
                &&& !within ==> state.grace_ends_at is None
            }
        }),
{
    lemma_status_names_differ();
}

/// Any status but these four is cancelled, whatever the dates say.
pub proof fn law_other_statuses_are_cancelled(
    sub: Subscription,
    trial_end: Option<Timestamp>,
    period_end: Option<Timestamp>,
    now: Timestamp,
)
    requires
        sub.status@ != "active"@,
        sub.status@ != "trialing"@,
        sub.status@ != "past_due"@,
        sub.status@ != "unpaid"@,
    ensures
        row_state(sub, trial_end, period_end, now).kind == SubscriptionKind::Cancelled,
        !row_state(sub, trial_end, period_end, now).access(),
        row_state(sub, trial_end, period_end, now).grace_ends_at is None,
{
}

/// A row's state carries the row's own status, plan and trial end, whatever it amounts to.
pub proof fn law_state_carries_the_row(
    sub: Subscription,
    trial_end: Option<Timestamp>,
    period_end: Option<Timestamp>,
    now: Timestamp,
)
    ensures
        row_state(sub, trial_end, period_end, now).raw_status == sub.status@,
        row_state(sub, trial_end, period_end, now).trial_ends_at == trial_end,
        sub.plan matches Some(plan) ==> row_state(sub, trial_end, period_end, now).plan_slug == Some(
            plan.slug@,
        ),
        sub.plan is None ==> row_state(sub, trial_end, period_end, now).plan_slug is None,
{
}

/// Which kinds grant access.
pub proof fn law_kinds_that_grant_access(state: SubscriptionState)
    ensures
        state.kind == SubscriptionKind::Active ==> state@.access(),
        state.kind == SubscriptionKind::TrialActive ==> state@.access(),
        state.kind == SubscriptionKind::PastDue ==> state@.access(),
        state.kind == SubscriptionKind::NeverSubscribed ==> !state@.access(),
        state.kind == SubscriptionKind::TrialExpired ==> !state@.access(),
        state.kind == SubscriptionKind::Cancelled ==> !state@.access(),
{
}

/// The first plan row decides: rows before it that are not a plan's and whatever stands
/// after it have no say. Its own two dates are what is read.
pub proof fn law_first_plan_row_decides(subs: Seq<Subscription>, i: int, now: Timestamp)
    requires
        0 <= i < subs.len(),
        subs[i].kind matches Some(kind) ==> kind@ == "plan"@,
        forall|j: int|
            0 <= j < i ==> ((#[trigger] subs[j]).kind matches Some(kind) && kind@ != "plan"@),
    ensures
        resolved(subs, now) == row_state(
            subs[i],
            field_instant(subs[i].trial_ends_at),
            field_instant(subs[i].current_period_end),
            now,
        ),
        subs[i].trial_ends_at is None ==> field_instant(subs[i].trial_ends_at) is None,
        subs[i].trial_ends_at matches Some(text) ==> field_instant(subs[i].trial_ends_at)
            == instant_of(text@),
        resolved(subs, now).kind != SubscriptionKind::NeverSubscribed,
    decreases i,
{
    if i > 0 {
        let rest = subs.drop_first();
        assert(subs[0].kind is Some);
        assert forall|j: int| 0 <= j < i - 1 implies ((#[trigger] rest[j]).kind matches Some(kind)
            && kind@ != "plan"@) by {
            assert(rest[j] == subs[j + 1]);
        }
        assert(rest[i - 1] == subs[i]);
        law_first_plan_row_decides(rest, i - 1, now);
        assert(first_plan_row(subs) == first_plan_row(rest));
    }
}

/// Without any plan row, the customer has never subscribed.
pub proof fn law_no_plan_row_is_never_subscribed(subs: Seq<Subscription>, now: Timestamp)
    requires
        forall|j: int|
            0 <= j < subs.len() ==> ((#[trigger] subs[j]).kind matches Some(kind) && kind@
                != "plan"@),
    ensures
        resolved(subs, now).kind == SubscriptionKind::NeverSubscribed,
        resolved(subs, now).raw_status == "never_subscribed"@,
        resolved(subs, now).plan_slug is None,
        resolved(subs, now).trial_ends_at is None,
        resolved(subs, now).grace_ends_at is None,
    decreases subs.len(),
{
    if subs.len() > 0 {
        let rest = subs.drop_first();
        assert(subs[0].kind is Some);
        assert forall|j: int| 0 <= j < rest.len() implies ((
        #[trigger] rest[j]).kind matches Some(kind) && kind@ != "plan"@) by {
            assert(rest[j] == subs[j + 1]);
        }
        law_no_plan_row_is_never_subscribed(rest, now);
        assert(first_plan_row(subs) == first_plan_row(rest));
    }
}

/// The days left in a trial are the whole days to its end, none once it is over; there are
/// none to tell outside a trial or without an end.
pub proof fn law_trial_days_left(state: SubscriptionStateView, now: Timestamp)
    ensures
        state.kind != SubscriptionKind::TrialActive && state.kind != SubscriptionKind::TrialExpired
            ==> state.trial_days(now) is None,
        state.trial_ends_at is None ==> state.trial_days(now) is None,
        state.kind == SubscriptionKind::TrialActive || state.kind == SubscriptionKind::TrialExpired
            ==> (state.trial_ends_at matches Some(end) ==> (state.trial_days(now) matches Some(
            days,
        ) && (if end.whole_days_since(now) >= 0 {
            days == end.whole_days_since(now)
        } else {
            days == 0
        }))),
{
}

/// A field holds the instant that its text stands for.
pub proof fn law_dates_are_read(text: String)
    ensures
        match crate::time::rfc3339_instant(text@) {
            Some((secs, nanos)) => field_instant(Some(text)) == Some(Timestamp { secs, nanos }),
            None => field_instant(Some(text)) is None,
        },
        field_instant(None) is None,
{
}

/// A state is viewed field by field.
pub proof fn law_states_are_viewed_whole(state: SubscriptionState)
    ensures
        state@.kind == state.kind,
        state@.raw_status == state.raw_status@,
        state@.trial_ends_at == state.trial_ends_at,
        state@.grace_ends_at == state.grace_ends_at,
        state.plan_slug matches Some(slug) ==> state@.plan_slug == Some(slug@),
        state.plan_slug is None ==> state@.plan_slug is None,
{
}

/// A state has its dates within the calendar exactly when each of those that it has is.
pub proof fn law_dates_of_states(state: SubscriptionState)
    ensures
        state.dated() <==> (state.trial_ends_at is None || state.trial_ends_at->0.valid()) && (
        state.grace_ends_at is None || state.grace_ends_at->0.valid()),
        state.trial_ends_at is None && state.grace_ends_at is None ==> state.dated(),
{
}

/// The kinds go by their names on the wire.
pub proof fn law_names_of_kinds(kind: SubscriptionKind, name: &'static str)
    requires
        call_ensures(SubscriptionKind::as_str, (kind,), name),
    ensures
        kind == SubscriptionKind::NeverSubscribed ==> name@ == "never_subscribed"@,
        kind == SubscriptionKind::TrialActive ==> name@ == "trial_active"@,
        kind == SubscriptionKind::Active ==> name@ == "active"@,
        kind == SubscriptionKind::PastDue ==> name@ == "past_due"@,
        kind == SubscriptionKind::TrialExpired ==> name@ == "trial_expired"@,
        kind == SubscriptionKind::Cancelled ==> name@ == "cancelled"@,
{
}

} // verus!
