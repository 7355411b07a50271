use huggian_client::billing::state::parse_dt;
use huggian_client::time::{is_fresh, Timestamp, MAX_SECS, MIN_SECS, YEAR_0_SECS, YEAR_9999_SECS};

fn at(secs: i64, nanos: u32) -> Timestamp {
    Timestamp { secs, nanos }
}

#[test]
fn instants_are_read_and_written_as_rfc_3339() {
    let t = parse_dt("2026-09-23T12:00:00Z").unwrap();
    assert_eq!(t, at(1_790_164_800, 0));
    assert_eq!(t.to_rfc3339(), "2026-09-23T12:00:00+00:00");
    assert_eq!(at(0, 500_000_000).to_rfc3339(), "1970-01-01T00:00:00.500+00:00");
    assert_eq!(parse_dt("2026-09-23"), None);
    assert_eq!(parse_dt(""), None);
}

#[test]
fn a_written_instant_reads_back() {
    for t in [
        at(0, 0),
        at(-1, 999_999_999),
        at(YEAR_0_SECS, 0),
        at(YEAR_9999_SECS, 1),
        at(1_790_164_859, 1_500_000_000),
    ] {
        assert_eq!(Timestamp::parse_rfc3339(&t.to_rfc3339()), Some(t));
    }
}

#[test]
fn days_are_added_within_the_calendar() {
    assert_eq!(at(0, 7).checked_add_days(2), Some(at(172_800, 7)));
    assert_eq!(at(0, 7).checked_add_days(-1), Some(at(-86_400, 7)));
    assert_eq!(at(MAX_SECS, 0).checked_add_days(1), None);
    assert_eq!(at(MIN_SECS, 0).checked_add_days(-1), None);
    assert_eq!(at(0, 0).checked_add_days(i64::MAX), None);
    assert_eq!(at(0, 0).checked_add_days(i64::MIN), None);
}

#[test]
fn a_leap_second_moves_to_the_second_it_borders_on() {
    let leap = at(59, 1_250_000_000);
    assert!(leap.is_valid());
    assert_eq!(leap.checked_add_days(1), Some(at(86_459, 250_000_000)));
    assert_eq!(leap.checked_add_days(-1), Some(at(-86_340, 250_000_000)));
    assert_eq!(leap.checked_add_days(0), Some(leap));
    assert_eq!(leap.checked_add_year(), Some(at(59 + 365 * 86_400, 1_250_000_000)));
}

#[test]
fn a_year_is_added_by_the_calendar() {
    let year = |s: &str| parse_dt(s).unwrap().checked_add_year().unwrap().to_rfc3339();
    assert_eq!(year("2024-02-29T01:02:03Z"), "2025-02-28T01:02:03+00:00");
    assert_eq!(year("2023-03-01T00:00:00Z"), "2024-03-01T00:00:00+00:00");
    assert_eq!(year("2023-12-31T23:59:59Z"), "2024-12-31T23:59:59+00:00");
    assert_eq!(at(MAX_SECS, 0).checked_add_year(), None);
    assert_eq!(at(MAX_SECS - 365 * 86_400, 0).checked_add_year(), Some(at(MAX_SECS, 0)));
    assert_eq!(at(MAX_SECS - 365 * 86_400 + 1, 0).checked_add_year(), None);
}

#[test]
fn whole_days_are_counted_toward_zero() {
    let day = 86_400;
    assert_eq!(at(5 * day, 0).days_after(at(0, 0)), 5);
    assert_eq!(at(5 * day - 1, 999_999_999).days_after(at(0, 0)), 4);
    assert_eq!(at(0, 0).days_after(at(day - 1, 0)), 0);
    assert_eq!(at(0, 0).days_after(at(day, 0)), -1);
    assert_eq!(at(day, 0).days_after(at(0, 1)), 0);
    assert_eq!(at(MAX_SECS, 0).days_after(at(MIN_SECS, 0)), 191_491_528);
}

#[test]
fn a_leap_second_left_behind_counts() {
    let leap = at(59, 1_500_000_000);
    assert_eq!(at(86_460, 0).days_after(leap), 1);
    assert_eq!(at(86_459, 0).days_after(leap), 0);
    assert_eq!(leap.days_after(at(86_460, 0)), -1);
}

#[test]
fn the_calendar_has_bounds() {
    assert!(at(MIN_SECS, 0).is_valid() && at(MAX_SECS, 999_999_999).is_valid());
    assert!(!at(MIN_SECS - 1, 0).is_valid() && !at(MAX_SECS + 1, 0).is_valid());
    assert!(!at(0, 1_000_000_000).is_valid());
    assert!(at(59, 1_999_999_999).is_valid() && at(-1, 1_000_000_000).is_valid());
    assert!(!at(59, 2_000_000_000).is_valid());
}

#[test]
fn instants_are_ordered() {
    assert!(at(0, 1).is_before(at(1, 0)));
    assert!(at(1, 0).is_before(at(1, 1)));
    assert!(!at(1, 1).is_before(at(1, 1)));
}

#[test]
fn freshness_ends_at_the_lifetime_and_a_clock_that_went_back_reads_zero() {
    assert!(is_fresh(10, 19, 10));
    assert!(!is_fresh(10, 20, 10));
    assert!(is_fresh(10, 5, 1));
    assert!(!is_fresh(10, 5, 0));
}
