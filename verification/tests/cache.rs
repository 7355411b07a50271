use huggian_client::billing::{StateCache, SubscriptionKind, SubscriptionState};
use huggian_client::time::Nanos;

const SEC: Nanos = 1_000_000_000;

fn state(kind: SubscriptionKind) -> SubscriptionState {
    SubscriptionState { kind, ..SubscriptionState::never_subscribed() }
}

#[test]
fn a_fresh_entry_is_served_and_a_stale_one_is_not() {
    let mut cache = StateCache::new(60 * SEC);
    cache.put("co-1", state(SubscriptionKind::Active), 0);
    assert_eq!(cache.get("co-1", 0).unwrap().kind, SubscriptionKind::Active);

    assert!(cache.get("co-1", 59 * SEC).is_some());
    assert!(cache.get("co-1", 61 * SEC).is_none());
}

#[test]
fn entries_never_leak_between_companies() {
    let mut cache = StateCache::default();
    cache.put("co-1", state(SubscriptionKind::Active), 0);
    assert!(cache.get("co-2", 0).is_none());
}

#[test]
fn invalidate_removes_only_the_named_company_and_tolerates_absence() {
    let mut cache = StateCache::default();
    cache.put("co-1", state(SubscriptionKind::Active), 0);
    cache.put("co-2", state(SubscriptionKind::Cancelled), 0);
    cache.invalidate("co-1");
    cache.invalidate("never-seen");
    assert!(cache.get("co-1", 0).is_none());
    assert!(cache.get("co-2", 0).is_some());
}

#[test]
fn writing_sweeps_expired_entries_but_keeps_fresh_ones() {
    let mut cache = StateCache::new(60 * SEC);
    cache.put("old", state(SubscriptionKind::Active), 0);
    cache.put("fresh", state(SubscriptionKind::Active), 61 * SEC);
    assert_eq!(cache.len(), 1);
    assert!(cache.get("fresh", 61 * SEC).is_some());
}

#[test]
fn an_entry_goes_stale_exactly_at_its_lifetime() {
    let mut cache = StateCache::new(60 * SEC);
    cache.put("co-1", state(SubscriptionKind::Active), 5);
    assert!(cache.get("co-1", 60 * SEC + 4).is_some());
    assert!(cache.get("co-1", 60 * SEC + 5).is_none());
}

#[test]
fn a_cache_without_a_lifetime_serves_nothing() {
    let mut cache = StateCache::new(0);
    cache.put("co-1", state(SubscriptionKind::Active), 0);
    assert!(cache.get("co-1", 0).is_none());
}

#[test]
fn a_second_write_replaces_the_first_and_starts_its_lifetime_anew() {
    let mut cache = StateCache::default();
    cache.put("co-1", state(SubscriptionKind::Active), 0);
    cache.put("co-1", state(SubscriptionKind::Cancelled), 30 * SEC);
    assert_eq!(cache.len(), 1);
    assert_eq!(cache.get("co-1", 89 * SEC).unwrap().kind, SubscriptionKind::Cancelled);
    cache.invalidate("co-1");
    assert_eq!(cache.len(), 0);
}

#[test]
fn many_companies_are_swept_together() {
    let mut cache = StateCache::new(10 * SEC);
    for i in 0..20u128 {
        cache.put(&format!("co-{i}"), state(SubscriptionKind::Active), i * SEC);
    }
    // At second 19 everything stored at second 9 or before is gone.
    assert_eq!(cache.len(), 10);
    assert!(cache.get("co-9", 19 * SEC).is_none());
    assert!(cache.get("co-10", 19 * SEC).is_some());
}
