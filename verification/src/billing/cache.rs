//! Per-company cache of a resolved [`SubscriptionState`].
//!
//! The answer changes a few times a month per company, so it is trusted for a
//! minute rather than costing two Huggian round trips (customer + subscriptions)
//! on every gated request. The caller supplies the reading of a monotonic clock.

use crate::billing::state::SubscriptionState;
use crate::text::same_text;
use crate::time::{is_fresh, Nanos};
use vstd::hash_map::StringHashMap;
use vstd::prelude::*;

verus! {

/// How long a state is trusted unless configured otherwise: a minute.
pub const DEFAULT_TTL: Nanos = 60_000_000_000;

/// The states of the companies seen lately.
pub struct StateCache {
    ttl: Nanos,
    entries: StringHashMap<Stored>,
    /// The companies that have an entry.
    company_ids: Vec<String>,
}

/// A state and when it was stored.
#[derive(Debug)]
pub struct Stored {
    pub at: Nanos,
    pub state: SubscriptionState,
}

/// A [`StateCache`] as a map from company to what is stored for it.
pub struct StateCacheView {
    pub ttl: Nanos,
    pub entries: Map<Seq<char>, Stored>,
}

impl StateCacheView {
    /// Whether a state is stored for the company and still trusted.
    pub open spec fn is_fresh(self, company_id: Seq<char>, now: Nanos) -> bool {
        &&& self.entries.contains_key(company_id)
        &&& crate::time::elapsed(self.entries[company_id].at, now) < self.ttl
    }

    /// What the cache answers for a company.
    pub open spec fn lookup(self, company_id: Seq<char>, now: Nanos) -> Option<SubscriptionState> {
        if self.is_fresh(company_id, now) {
            Some(self.entries[company_id].state)
        } else {
            None
        }
    }

    /// The cache without the entries that are no longer trusted.
    pub open spec fn swept(self, now: Nanos) -> StateCacheView {
        StateCacheView {
            ttl: self.ttl,
            entries: Map::new(
                |company_id: Seq<char>| self.is_fresh(company_id, now),
                |company_id: Seq<char>| self.entries[company_id],
            ),
        }
    }

    /// The cache after a state was stored for a company.
    pub open spec fn stored(self, company_id: Seq<char>, state: SubscriptionState, now: Nanos) -> StateCacheView {
        StateCacheView {
            ttl: self.ttl,
            entries: self.swept(now).entries.insert(company_id, Stored { at: now, state }),
        }
    }

    /// The cache without a company.
    pub open spec fn without(self, company_id: Seq<char>) -> StateCacheView {
        StateCacheView { ttl: self.ttl, entries: self.entries.remove(company_id) }
    }
}

/// Whether a company is listed.
spec fn listed(company_ids: Seq<String>, company_id: Seq<char>) -> bool {
    exists|i: int| 0 <= i < company_ids.len() && #[trigger] company_ids[i]@ == company_id
}

impl View for StateCache {
    type V = StateCacheView;

    closed spec fn view(&self) -> StateCacheView {
        StateCacheView { ttl: self.ttl, entries: self.entries@ }
    }
}

impl StateCache {
    /// Every company that has an entry is listed, and the dates of every state lie
    /// within the calendar.
    pub closed spec fn wf(self) -> bool {
        &&& forall|company_id: Seq<char>| #[trigger]
            self.entries@.contains_key(company_id) ==> listed(self.company_ids@, company_id)
        &&& forall|company_id: Seq<char>| #[trigger]
            self.entries@.contains_key(company_id) ==> self.entries@[company_id].state.dated()
    }

    #[must_use]
    pub fn new(ttl: Nanos) -> (cache: Self)
        ensures
            cache.wf(),
            cache@ == (StateCacheView { ttl, entries: Map::empty() }),
    {
        StateCache { ttl, entries: StringHashMap::new(), company_ids: Vec::new() }
    }

    /// The cached state if it is still fresh.
    #[must_use]
    pub fn get(&self, company_id: &str, now: Nanos) -> (state: Option<SubscriptionState>)
        ensures
            state == self@.lookup(company_id@, now),
            self.wf() ==> (state matches Some(state) ==> state.dated()),
    {
        match self.entries.get(company_id) {
            Some(stored) => if is_fresh(stored.at, now, self.ttl) {
                Some(stored.state.clone())
            } else {
                None
            },
            None => None,
        }
    }

    /// How many companies have an entry, fresh or not.
    #[must_use]
    pub fn len(&self) -> (len: usize)
        ensures
            len == self@.entries.len(),
    {
        self.entries.len()
    }

    /// Drops every entry that is no longer fresh.
    fn sweep(&mut self, now: Nanos)
        requires
            old(self).wf(),
        ensures
            final(self).wf(),
            final(self)@ == old(self)@.swept(now),
    {
        let ghost before = self@;
        let mut rest: Vec<String> = Vec::new();
        let mut kept: Vec<String> = Vec::new();
        std::mem::swap(&mut self.company_ids, &mut rest);
        while rest.len() > 0
            invariant
                self.ttl == before.ttl,
                forall|id: Seq<char>| #[trigger]
                    self.entries@.contains_key(id) ==> before.entries.contains_key(id)
                        && self.entries@[id] == before.entries[id],
                forall|id: Seq<char>| #[trigger]
                    before.is_fresh(id, now) ==> self.entries@.contains_key(id),
                forall|id: Seq<char>| #[trigger]
                    self.entries@.contains_key(id) ==> listed(rest@, id) || (before.is_fresh(
                        id,
                        now,
                    ) && listed(kept@, id)),
            decreases rest@.len(),
        {
            let ghost pending = rest@;
            let ghost done = kept@;
            let id = rest.pop().unwrap();
            let ghost current = id@;
            proof {
                assert forall|other: Seq<char>|
                    other != current && listed(pending, other) implies listed(rest@, other) by {
                    let i = choose|i: int| 0 <= i < pending.len() && #[trigger] pending[i]@ == other;
                    assert(rest@[i]@ == other);
                }
            }
            let known = match self.entries.get(id.as_str()) {
                Some(stored) => Some(is_fresh(stored.at, now, self.ttl)),
                None => None,
            };
            match known {
                Some(true) => {
                    kept.push(id);
                    proof {
                        assert(kept@[done.len() as int]@ == current);
                        assert forall|other: Seq<char>| listed(done, other) implies listed(
                            kept@,
                            other,
                        ) by {
                            let i = choose|i: int| 0 <= i < done.len() && #[trigger] done[i]@ == other;
                            assert(kept@[i]@ == other);
                        }
                    }
                },
                Some(false) => {
                    self.entries.remove(id.as_str());
                },
                None => {},
            }
        }
        self.company_ids = kept;
        assert(self@.entries =~= before.swept(now).entries);
    }

    /// Stores a state, sweeping expired entries first so the map cannot grow
    /// with every company ever seen.
    pub fn put(&mut self, company_id: &str, state: SubscriptionState, now: Nanos)
        requires
            old(self).wf(),
            state.dated(),
        ensures
            final(self).wf(),
            final(self)@ == old(self)@.stored(company_id@, state, now),
    {
        self.sweep(now);
        let ghost before = *self;
        if !self.entries.contains_key(company_id) {
            self.company_ids.push(company_id.to_string());
            assert(self.company_ids@[before.company_ids@.len() as int]@ == company_id@);
        }
        self.entries.insert(company_id.to_string(), Stored { at: now, state });
        proof {
            assert forall|id: Seq<char>| #[trigger]
                self.entries@.contains_key(id) implies listed(self.company_ids@, id) by {
                if before.entries@.contains_key(id) {
                    let i = choose|i: int|
                        0 <= i < before.company_ids@.len() && #[trigger] before.company_ids@[i]@
                            == id;
                    assert(self.company_ids@[i]@ == id);
                }
            }
        }
    }

    /// Forget one company (after a checkout or cancel changed its state).
    pub fn invalidate(&mut self, company_id: &str)
        requires
            old(self).wf(),
        ensures
            final(self).wf(),
            final(self)@ == old(self)@.without(company_id@),
    {
        let ghost before = *self;
        self.entries.remove(company_id);
        let mut i: usize = 0;
        while i < self.company_ids.len()
            invariant
                before == *old(self),
                self.ttl == before.ttl,
                self.entries@ == before.entries@.remove(company_id@),
                self.company_ids == before.company_ids,
                before.wf(),
                i <= self.company_ids@.len(),
            decreases self.company_ids@.len() - i,
        {
            if same_text(self.company_ids[i].as_str(), company_id) {
                self.company_ids.remove(i);
                proof {
                    assert forall|id: Seq<char>| #[trigger]
                        self.entries@.contains_key(id) implies listed(self.company_ids@, id) by {
                        let k = choose|k: int|
                            0 <= k < before.company_ids@.len() && #[trigger] before.company_ids@[k]@
                                == id;
                        let j = if k < i {
                            k
                        } else {
                            k - 1
                        };
                        assert(before.entries@.contains_key(id));
                        assert(self.company_ids@[j]@ == id);
                    }
                }
                return ;
            }
            i = i + 1;
        }
    }
}

impl Default for StateCache {
    fn default() -> (cache: Self)
        ensures
            cache.wf(),
            cache@ == (StateCacheView { ttl: DEFAULT_TTL, entries: Map::empty() }),
    {
        Self::new(DEFAULT_TTL)
    }
}

/// A stored state is served until it is as old as the cache allows, and not from
/// then on.
pub proof fn law_stored_state_is_served_while_fresh(
    cache: StateCacheView,
    company_id: Seq<char>,
    state: SubscriptionState,
    stored_at: Nanos,
    now: Nanos,
)
    ensures
        cache.stored(company_id, state, stored_at).lookup(company_id, now)
            == if crate::time::elapsed(stored_at, now) < cache.ttl {
            Some(state)
        } else {
            None
        },
{
}

/// Entries never leak between companies: storing a state for one changes no
/// answer for another.
pub proof fn law_entries_never_leak(
    cache: StateCacheView,
    company_id: Seq<char>,
    other: Seq<char>,
    state: SubscriptionState,
    stored_at: Nanos,
    now: Nanos,
)
    requires
        company_id != other,
        stored_at <= now,
    ensures
        cache.stored(company_id, state, stored_at).lookup(other, now) == cache.lookup(other, now),
{
}

/// Forgetting a company removes its entry and no other.
pub proof fn law_invalidate_forgets_one_company(
    cache: StateCacheView,
    company_id: Seq<char>,
    other: Seq<char>,
    now: Nanos,
)
    ensures
        cache.without(company_id).lookup(company_id, now) is None,
        company_id != other ==> cache.without(company_id).lookup(other, now) == cache.lookup(
            other,
            now,
        ),
{
}

/// Writing sweeps: right after a state is stored, every entry left is trusted or
/// is the one just stored, and every entry trusted before is still there.
pub proof fn law_writing_sweeps_expired_entries(
    cache: StateCacheView,
    company_id: Seq<char>,
    other: Seq<char>,
    state: SubscriptionState,
    now: Nanos,
)
    ensures
        cache.stored(company_id, state, now).entries.contains_key(other) <==> other == company_id
            || cache.is_fresh(other, now),
{
}

/// What the cache answers is what it holds for that company, less than its lifetime old;
/// an older entry, or another company's, is no answer.
pub proof fn law_answers_are_held_and_fresh(
    cache: StateCacheView,
    company_id: Seq<char>,
    now: Nanos,
)
    ensures
        cache.lookup(company_id, now) matches Some(state) ==> {
            &&& cache.entries.contains_key(company_id)
            &&& cache.entries[company_id].state == state
            &&& now < cache.entries[company_id].at + cache.ttl
        },
        cache.entries.contains_key(company_id) && cache.entries[company_id].at <= now && now
            < cache.entries[company_id].at + cache.ttl ==> cache.lookup(company_id, now) is Some,
{
}

/// The second of two states stored for a company replaces the first, and storing keeps the
/// lifetime.
pub proof fn law_the_last_state_counts(
    cache: StateCacheView,
    company_id: Seq<char>,
    first: SubscriptionState,
    second: SubscriptionState,
    then: Nanos,
    now: Nanos,
    later: Nanos,
)
    requires
        then <= now <= later,
        later < now + cache.ttl,
    ensures
        cache.stored(company_id, first, then).stored(company_id, second, now).lookup(
            company_id,
            later,
        ) == Some(second),
        cache.stored(company_id, first, then).ttl == cache.ttl,
        cache.without(company_id).ttl == cache.ttl,
        cache.stored(company_id, first, then).without(company_id).lookup(company_id, later) is None,
{
}

/// What is stored for a company is what is read for it while the cache trusts it, and no
/// other company reads it; once forgotten it is not read.
pub proof fn law_cache_reads_what_was_stored(
    cache: &mut StateCache,
    company_id: &str,
    state: SubscriptionState,
    now: Nanos,
    other: &str,
    later: Nanos,
    read: Option<SubscriptionState>,
    elsewhere: Option<SubscriptionState>,
)
    requires
        call_ensures(StateCache::put, (cache, company_id, state, now), ()),
        call_ensures(StateCache::get, (final(cache), company_id, later), read),
        call_ensures(StateCache::get, (final(cache), other, later), elsewhere),
        now <= later,
        other@ != company_id@,
    ensures
        later < now + old(cache)@.ttl ==> read == Some(state),
        later >= now + old(cache)@.ttl ==> read is None,
        elsewhere matches Some(held) ==> old(cache)@.entries.contains_key(other@) && held == old(cache)@.entries[other@].state,
        final(cache)@.ttl == old(cache)@.ttl,
{
}

/// Forgetting a company leaves every other company as it is.
pub proof fn law_forgetting_is_for_one_company(
    cache: &mut StateCache,
    company_id: &str,
    other: &str,
    now: Nanos,
    read: Option<SubscriptionState>,
    elsewhere: Option<SubscriptionState>,
)
    requires
        call_ensures(StateCache::invalidate, (cache, company_id), ()),
        call_ensures(StateCache::get, (final(cache), company_id, now), read),
        call_ensures(StateCache::get, (final(cache), other, now), elsewhere),
        other@ != company_id@,
    ensures
        read is None,
        elsewhere == old(cache)@.lookup(other@, now),
{
}

} // verus!
