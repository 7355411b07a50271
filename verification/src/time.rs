//! Instants, durations and the calendar rules that billing periods follow.

use chrono::{DateTime, Months, TimeDelta, Utc};
use vstd::prelude::*;

verus! {

/// A duration, or an instant of a monotonic clock, in whole nanoseconds.
pub type Nanos = u128;

/// How long ago `since` was at `now`; zero when it lies ahead.
pub open spec fn elapsed(since: Nanos, now: Nanos) -> int {
    if now >= since {
        now - since
    } else {
        0
    }
}

/// Whether less than `ttl` has passed between `since` and `now`.
pub fn is_fresh(since: Nanos, now: Nanos, ttl: Nanos) -> (fresh: bool)
    ensures
        fresh == (elapsed(since, now) < ttl),
{
    if now >= since {
        now - since < ttl
    } else {
        ttl > 0
    }
}

/// Seconds in a day.
pub const DAY_SECS: i64 = 86_400;

/// Nanoseconds in a second.
pub const SECOND_NANOS: u32 = 1_000_000_000;

/// The first second of the calendar, January 1 of the year -262143.
pub const MIN_SECS: i64 = -8_334_601_228_800;

/// The last second of the calendar, December 31 of the year 262142.
pub const MAX_SECS: i64 = 8_210_266_876_799;

/// The last year of the calendar.
pub const MAX_YEAR: i64 = 262_142;

/// The first second of the year 0.
pub const YEAR_0_SECS: i64 = -62_167_219_200;

/// The last second of the year 9999.
pub const YEAR_9999_SECS: i64 = 253_402_300_799;

/// An instant in UTC: seconds since January 1, 1970 and nanoseconds within the
/// second. A leap second is the second before it with a second's worth of
/// nanoseconds more.
#[derive(Debug, Clone, Copy, PartialEq, Eq)]
pub struct Timestamp {
    pub secs: i64,
    pub nanos: u32,
}

impl Timestamp {
    /// Whether the calendar holds this instant.
    pub open spec fn valid(self) -> bool {
        &&& MIN_SECS <= self.secs <= MAX_SECS
        &&& self.nanos < SECOND_NANOS || (self.nanos < 2 * SECOND_NANOS && self.secs as int % 60
            == 59)
    }

    /// Whether the instant lies within a leap second.
    pub open spec fn is_leap(self) -> bool {
        self.nanos >= SECOND_NANOS
    }

    /// The day, counted from January 1, 1970.
    pub open spec fn day(self) -> int {
        self.secs as int / 86_400
    }

    /// The second of the day.
    pub open spec fn second_of_day(self) -> int {
        self.secs as int % 86_400
    }

    /// Whether this instant comes before `other`.
    pub open spec fn before(self, other: Timestamp) -> bool {
        self.secs < other.secs || (self.secs == other.secs && self.nanos < other.nanos)
    }

    /// The instant a number of whole days later: `None` outside the calendar. A
    /// leap second turns into the second it borders on.
    pub open spec fn days_later(self, days: int) -> Option<Timestamp> {
        let leaves_leap = self.is_leap() && days != 0;
        let secs = self.secs + 86_400 * days + if leaves_leap && days < 0 {
            1int
        } else {
            0
        };
        if MIN_SECS <= secs <= MAX_SECS {
            Some(
                Timestamp {
                    secs: secs as i64,
                    nanos: if leaves_leap {
                        (self.nanos - SECOND_NANOS) as u32
                    } else {
                        self.nanos
                    },
                },
            )
        } else {
            None
        }
    }

    /// The same time of day a number of calendar months later, on the last day of
    /// the month where the month is too short: `None` outside the calendar.
    pub open spec fn months_later(self, months: int) -> Option<Timestamp> {
        let date = civil_date(self.day());
        let moved = date.months_later(months);
        if moved.year <= MAX_YEAR {
            Some(
                Timestamp {
                    secs: (86_400 * moved.day_number() + self.second_of_day()) as i64,
                    nanos: self.nanos,
                },
            )
        } else {
            None
        }
    }

    /// The nanoseconds from `earlier` to this instant, where a leap second that
    /// is left behind within the day counts.
    pub open spec fn nanos_since(self, earlier: Timestamp) -> int {
        let leap = if self.second_of_day() > earlier.second_of_day() && earlier.is_leap() {
            1int
        } else if self.second_of_day() < earlier.second_of_day() && self.is_leap() {
            -1int
        } else {
            0int
        };
        1_000_000_000 * (self.secs - earlier.secs + leap) + self.nanos - earlier.nanos
    }

    /// The whole days from `earlier` to this instant, rounded toward zero.
    pub open spec fn whole_days_since(self, earlier: Timestamp) -> int {
        let nanos = self.nanos_since(earlier);
        if nanos >= 0 {
            nanos / 86_400_000_000_000
        } else {
            -((-nanos) / 86_400_000_000_000)
        }
    }
}

/// A date of the Gregorian calendar, extended to all years.
pub struct Civil {
    pub year: int,
    pub month: int,
    pub date: int,
}

/// Whether `year` is a leap year.
pub open spec fn is_leap_year(year: int) -> bool {
    year % 4 == 0 && (year % 100 != 0 || year % 400 == 0)
}

/// How many days a month has.
pub open spec fn days_in_month(year: int, month: int) -> int {
    if month == 2 {
        if is_leap_year(year) {
            29
        } else {
            28
        }
    } else if month == 4 || month == 6 || month == 9 || month == 11 {
        30
    } else {
        31
    }
}

/// How many days of the year lie before a month.
pub open spec fn days_before_month(year: int, month: int) -> int
    decreases month,
{
    if month <= 1 {
        0
    } else {
        days_before_month(year, month - 1) + days_in_month(year, month - 1)
    }
}

/// January 1 of a year, counted in days from January 1, 1970.
pub open spec fn days_before_year(year: int) -> int {
    365 * (year - 1970) + (year - 1) / 4 - (year - 1) / 100 + (year - 1) / 400 - 477
}

impl Civil {
    /// Whether the calendar has this date.
    pub open spec fn valid(self) -> bool {
        1 <= self.month <= 12 && 1 <= self.date <= days_in_month(self.year, self.month)
    }

    /// The day, counted from January 1, 1970.
    pub open spec fn day_number(self) -> int {
        days_before_year(self.year) + days_before_month(self.year, self.month) + self.date - 1
    }

    /// The same day of the month, or the month's last day, a number of months later.
    pub open spec fn months_later(self, months: int) -> Civil {
        let month_index = 12 * self.year + self.month - 1 + months;
        let year = month_index / 12;
        let month = month_index % 12 + 1;
        Civil {
            year,
            month,
            date: if self.date <= days_in_month(year, month) {
                self.date
            } else {
                days_in_month(year, month)
            },
        }
    }
}

/// The date of a day counted from January 1, 1970.
pub open spec fn civil_date(day: int) -> Civil {
    choose|date: Civil| date.valid() && #[trigger] date.day_number() == day
}

/// A leap year pushes the start of the next year back by a day.
proof fn lemma_year_starts(year: int)
    ensures
        days_before_year(year + 1) - days_before_year(year) == if is_leap_year(year) {
            366int
        } else {
            365int
        },
{
    assert(year / 4 - (year - 1) / 4 == if year % 4 == 0 {
        1int
    } else {
        0int
    });
    assert(year / 100 - (year - 1) / 100 == if year % 100 == 0 {
        1int
    } else {
        0int
    });
    assert(year / 400 - (year - 1) / 400 == if year % 400 == 0 {
        1int
    } else {
        0int
    });
    assert(year % 100 == 0 ==> year % 4 == 0);
    assert(year % 400 == 0 ==> year % 100 == 0);
}

/// Where the months of a year start.
proof fn lemma_month_starts(year: int)
    ensures
        ({
            let february = days_in_month(year, 2);
            &&& days_before_month(year, 1) == 0
            &&& days_before_month(year, 2) == 31
            &&& days_before_month(year, 3) == 31 + february
            &&& days_before_month(year, 4) == 62 + february
            &&& days_before_month(year, 5) == 92 + february
            &&& days_before_month(year, 6) == 123 + february
            &&& days_before_month(year, 7) == 153 + february
            &&& days_before_month(year, 8) == 184 + february
            &&& days_before_month(year, 9) == 215 + february
            &&& days_before_month(year, 10) == 245 + february
            &&& days_before_month(year, 11) == 276 + february
            &&& days_before_month(year, 12) == 306 + february
        }),
{
    assert(days_before_month(year, 1) == 0);
    assert(days_before_month(year, 2) == 31);
    assert(days_before_month(year, 3) == 31 + days_in_month(year, 2));
    assert(days_before_month(year, 4) == 62 + days_in_month(year, 2));
    assert(days_before_month(year, 5) == 92 + days_in_month(year, 2));
    assert(days_before_month(year, 6) == 123 + days_in_month(year, 2));
    assert(days_before_month(year, 7) == 153 + days_in_month(year, 2));
    assert(days_before_month(year, 8) == 184 + days_in_month(year, 2));
    assert(days_before_month(year, 9) == 215 + days_in_month(year, 2));
    assert(days_before_month(year, 10) == 245 + days_in_month(year, 2));
    assert(days_before_month(year, 11) == 276 + days_in_month(year, 2));
    assert(days_before_month(year, 12) == 306 + days_in_month(year, 2));
}

/// A year is 365 days long, a leap year 366.
proof fn lemma_year_length(year: int)
    ensures
        days_before_year(year + 1) - days_before_year(year) == if is_leap_year(year) {
            366int
        } else {
            365int
        },
        days_before_month(year, 12) + 31 == if is_leap_year(year) {
            366int
        } else {
            365int
        },
{
    lemma_year_starts(year);
    lemma_month_starts(year);
}

/// Later years start later, by at least 365 days a year.
proof fn lemma_years_in_order(year: int, later: int)
    requires
        year <= later,
    ensures
        days_before_year(year) + 365 * (later - year) <= days_before_year(later),
    decreases later - year,
{
    if year < later {
        lemma_year_length(year);
        lemma_years_in_order(year + 1, later);
    }
}

/// A valid date lies within its year.
proof fn lemma_date_within_year(date: Civil)
    requires
        date.valid(),
    ensures
        days_before_year(date.year) <= date.day_number() < days_before_year(date.year + 1),
{
    lemma_month_starts(date.year);
    lemma_year_length(date.year);
}

/// Every day has a date.
pub proof fn law_every_day_has_a_date(day: int)
    ensures
        civil_date(day).valid(),
        civil_date(day).day_number() == day,
    decreases
            if day >= 0 {
                day
            } else {
                -day
            },
{
    let witness = if day == 0 {
        Civil { year: 1970, month: 1, date: 1 }
    } else if day > 0 {
        law_every_day_has_a_date(day - 1);
        let date = civil_date(day - 1);
        lemma_year_length(date.year);
        if date.date < days_in_month(date.year, date.month) {
            Civil { year: date.year, month: date.month, date: date.date + 1 }
        } else if date.month < 12 {
            Civil { year: date.year, month: date.month + 1, date: 1 }
        } else {
            Civil { year: date.year + 1, month: 1, date: 1 }
        }
    } else {
        law_every_day_has_a_date(day + 1);
        let date = civil_date(day + 1);
        lemma_year_length(date.year - 1);
        if date.date > 1 {
            Civil { year: date.year, month: date.month, date: date.date - 1 }
        } else if date.month > 1 {
            Civil {
                year: date.year,
                month: date.month - 1,
                date: days_in_month(date.year, date.month - 1),
            }
        } else {
            Civil { year: date.year - 1, month: 12, date: 31 }
        }
    };
    reveal_with_fuel(days_before_month, 2);
    assert(witness.valid() && witness.day_number() == day);
}

/// A day has one date only: the calendar is unambiguous.
pub proof fn law_a_day_has_one_date(date: Civil)
    requires
        date.valid(),
    ensures
        civil_date(date.day_number()) == date,
{
    let found = civil_date(date.day_number());
    assert(found.valid() && found.day_number() == date.day_number());
    lemma_date_within_year(date);
    lemma_date_within_year(found);
    if date.year < found.year {
        lemma_years_in_order(date.year + 1, found.year);
    }
    if found.year < date.year {
        lemma_years_in_order(found.year + 1, date.year);
    }
    lemma_month_starts(date.year);
}

/// Twelve months after a date is the same day of the same month a year on,
/// except that February 29 becomes February 28.
pub proof fn law_twelve_months_are_a_year(date: Civil)
    requires
        date.valid(),
    ensures
        date.months_later(12).year == date.year + 1,
        date.months_later(12).month == date.month,
        date.months_later(12).date == if date.month == 2 && date.date == 29 {
            28
        } else {
            date.date
        },
        date.months_later(12).valid(),
{
}

/// How far twelve months reach, in days.
proof fn lemma_twelve_months_in_days(date: Civil)
    requires
        date.valid(),
    ensures
        365 <= date.months_later(12).day_number() - date.day_number() <= 366,
{
    law_twelve_months_are_a_year(date);
    lemma_year_length(date.year);
    lemma_month_starts(date.year);
    lemma_month_starts(date.year + 1);
}

/// Twelve months after an instant the time of day is the same, and 365 or 366
/// days have passed. The calendar holds that instant whenever at least 365 days
/// of it are left.
pub proof fn law_twelve_months_later(start: Timestamp)
    requires
        start.valid(),
    ensures
        start.months_later(12) is Some <==> start.secs <= MAX_SECS - 365 * DAY_SECS,
        start.months_later(12) matches Some(end) ==> {
            &&& end.valid()
            &&& end.nanos == start.nanos
            &&& end.secs - start.secs == 365 * DAY_SECS || end.secs - start.secs == 366 * DAY_SECS
        },
{
    law_every_day_has_a_date(start.day());
    let date = civil_date(start.day());
    law_twelve_months_are_a_year(date);
    lemma_twelve_months_in_days(date);
    lemma_date_within_year(date);
    let moved = date.months_later(12);
    lemma_date_within_year(moved);
    assert(days_before_year(262_142) == 95_025_872);
    assert(days_before_year(262_143) == 95_026_237);
    if date.year < MAX_YEAR {
        lemma_years_in_order(date.year + 1, 262_142);
        lemma_years_in_order(moved.year + 1, 262_143);
    } else {
        lemma_years_in_order(262_142, date.year);
    }
}

/// The instant an RFC 3339 text stands for, as seconds since January 1, 1970 and
/// nanoseconds within the second; `None` for any other text.
pub uninterp spec fn rfc3339_instant(text: Seq<char>) -> Option<(i64, u32)>;

/// An instant in UTC written as RFC 3339, with as many fractional digits as it needs.
pub uninterp spec fn rfc3339_text(secs: i64, nanos: u32) -> Seq<char>;

/// Calls `chrono::DateTime::parse_from_rfc3339` and takes the result in UTC. Years
/// have four digits and the offset is shorter than a day, so the instant lies
/// within a day of the years 0 to 9999; a leap second stands at the end of a minute.
#[verifier::external_body]
fn chrono_parse_rfc3339(text: &str) -> (parsed: Option<Timestamp>)
    ensures
        match parsed {
            Some(at) => rfc3339_instant(text@) == Some((at.secs, at.nanos)),
            None => rfc3339_instant(text@) is None,
        },
        parsed matches Some(at) ==> at.valid() && YEAR_0_SECS - DAY_SECS <= at.secs
            <= YEAR_9999_SECS + DAY_SECS,
{
    let at = DateTime::parse_from_rfc3339(text).ok()?.with_timezone(&Utc);
    Some(Timestamp { secs: at.timestamp(), nanos: at.timestamp_subsec_nanos() })
}

/// Calls `chrono::DateTime::to_rfc3339`. Within the years 0 to 9999, which it
/// writes with four digits, the text reads back as the same instant.
#[verifier::external_body]
fn chrono_to_rfc3339(at: Timestamp) -> (text: String)
    requires
        at.valid(),
    ensures
        text@ == rfc3339_text(at.secs, at.nanos),
        YEAR_0_SECS <= at.secs <= YEAR_9999_SECS ==> rfc3339_instant(text@) == Some(
            (at.secs, at.nanos),
        ),
{
    DateTime::<Utc>::from_timestamp(at.secs, at.nanos).unwrap().to_rfc3339()
}

/// Calls `chrono::DateTime::checked_add_signed` with `chrono::TimeDelta::try_days`:
/// whole days of 24 hours, out of a leap second if need be, `None` outside the
/// calendar.
#[verifier::external_body]
fn chrono_add_days(at: Timestamp, days: i64) -> (moved: Option<Timestamp>)
    requires
        at.valid(),
    ensures
        moved == at.days_later(days as int),
{
    let start = DateTime::<Utc>::from_timestamp(at.secs, at.nanos).unwrap();
    let end = start.checked_add_signed(TimeDelta::try_days(days)?)?;
    Some(Timestamp { secs: end.timestamp(), nanos: end.timestamp_subsec_nanos() })
}

/// Calls `chrono::DateTime::checked_add_months` with `chrono::Months`: the same time
/// of day and day of the month, or the month's last day, `None` outside the calendar.
#[verifier::external_body]
fn chrono_add_months(at: Timestamp, months: u32) -> (moved: Option<Timestamp>)
    requires
        at.valid(),
    ensures
        moved == at.months_later(months as int),
{
    let start = DateTime::<Utc>::from_timestamp(at.secs, at.nanos).unwrap();
    let end = start.checked_add_months(Months::new(months))?;
    Some(Timestamp { secs: end.timestamp(), nanos: end.timestamp_subsec_nanos() })
}

/// Calls `chrono::DateTime::signed_duration_since` and `chrono::TimeDelta::num_days`:
/// the whole days between two instants, rounded toward zero.
#[verifier::external_body]
fn chrono_days_between(later: Timestamp, earlier: Timestamp) -> (days: i64)
    requires
        later.valid(),
        earlier.valid(),
    ensures
        days == later.whole_days_since(earlier),
{
    let end = DateTime::<Utc>::from_timestamp(later.secs, later.nanos).unwrap();
    let start = DateTime::<Utc>::from_timestamp(earlier.secs, earlier.nanos).unwrap();
    end.signed_duration_since(start).num_days()
}

impl Timestamp {
    /// Whether this instant comes before `other`.
    pub fn is_before(self, other: Timestamp) -> (before: bool)
        ensures
            before == self.before(other),
    {
        self.secs < other.secs || (self.secs == other.secs && self.nanos < other.nanos)
    }

    /// Whether the calendar holds this instant.
    pub fn is_valid(self) -> (valid: bool)
        ensures
            valid == self.valid(),
    {
        MIN_SECS <= self.secs && self.secs <= MAX_SECS && (self.nanos < SECOND_NANOS || (self.nanos
            < 2 * SECOND_NANOS && (self.secs - MIN_SECS) % 60 == 59))
    }

    /// Reads an RFC 3339 text.
    pub fn parse_rfc3339(text: &str) -> (parsed: Option<Timestamp>)
        ensures
            match parsed {
                Some(at) => rfc3339_instant(text@) == Some((at.secs, at.nanos)),
                None => rfc3339_instant(text@) is None,
            },
            parsed matches Some(at) ==> at.valid() && YEAR_0_SECS - DAY_SECS <= at.secs
                <= YEAR_9999_SECS + DAY_SECS,
    {
        chrono_parse_rfc3339(text)
    }

    /// Writes the instant as RFC 3339.
    pub fn to_rfc3339(self) -> (text: String)
        requires
            self.valid(),
        ensures
            text@ == rfc3339_text(self.secs, self.nanos),
            YEAR_0_SECS <= self.secs <= YEAR_9999_SECS ==> rfc3339_instant(text@) == Some(
                (self.secs, self.nanos),
            ),
    {
        chrono_to_rfc3339(self)
    }

    /// The instant `days` whole days later, `None` outside the calendar.
    pub fn checked_add_days(self, days: i64) -> (moved: Option<Timestamp>)
        requires
            self.valid(),
        ensures
            moved == self.days_later(days as int),
            moved matches Some(at) ==> at.valid(),
    {
        chrono_add_days(self, days)
    }

    /// The instant a calendar year later, `None` outside the calendar.
    pub fn checked_add_year(self) -> (moved: Option<Timestamp>)
        requires
            self.valid(),
        ensures
            moved == self.months_later(12),
            moved matches Some(at) ==> at.valid(),
    {
        proof {
            law_twelve_months_later(self);
        }
        chrono_add_months(self, 12)
    }

    /// The whole days from `earlier` to this instant, rounded toward zero.
    pub fn days_after(self, earlier: Timestamp) -> (days: i64)
        requires
            self.valid(),
            earlier.valid(),
        ensures
            days == self.whole_days_since(earlier),
    {
        chrono_days_between(self, earlier)
    }
}

/// Time that has passed is the difference of two readings, and none where the clock
/// reads less.
pub proof fn law_elapsed(since: Nanos, now: Nanos)
    ensures
        since <= now ==> elapsed(since, now) == now - since,
        now <= since ==> elapsed(since, now) == 0,
{
}

/// Instants are in order: of two, one comes before the other unless they are the same, and
/// what comes before in seconds comes before.
pub proof fn law_instants_are_in_order(a: Timestamp, b: Timestamp, c: Timestamp)
    ensures
        !(a.before(b) && b.before(a)),
        a.before(b) || b.before(a) || a == b,
        !a.before(a),
        a.before(b) && b.before(c) ==> a.before(c),
        a.secs < b.secs ==> a.before(b),
        a.secs == b.secs ==> (a.before(b) <==> a.nanos < b.nanos),
{
}

/// Whole days later the clock shows the same, so many times 24 hours on; it fails only
/// where the calendar ends.
pub proof fn law_days_later(start: Timestamp, days: int)
    requires
        start.valid(),
        start.nanos < SECOND_NANOS,
    ensures
        start.days_later(days) is Some <==> MIN_SECS <= start.secs + 86_400 * days <= MAX_SECS,
        start.days_later(days) matches Some(end) ==> {
            &&& end.secs == start.secs + 86_400 * days
            &&& end.nanos == start.nanos
            &&& end.valid()
        },
        start.days_later(0) == Some(start),
{
}

/// Days add up: some days after some days is as many days after.
pub proof fn law_days_add_up(start: Timestamp, days: int, more: int)
    requires
        start.valid(),
        start.nanos < SECOND_NANOS,
        start.days_later(days) is Some,
    ensures
        (start.days_later(days)->0).days_later(more) == start.days_later(days + more),
{
}

/// How many whole days lie between two instants outside leap seconds: as many as fit, and
/// not one more; the other way round it is the same number below zero.
pub proof fn law_whole_days(later: Timestamp, earlier: Timestamp)
    requires
        later.nanos < SECOND_NANOS,
        earlier.nanos < SECOND_NANOS,
    ensures
        ({
            let days = later.whole_days_since(earlier);
            let nanos = 1_000_000_000 * (later.secs - earlier.secs) + later.nanos - earlier.nanos;
            &&& nanos >= 0 ==> 86_400_000_000_000 * days <= nanos < 86_400_000_000_000 * (days + 1)
            &&& nanos <= 0 ==> 86_400_000_000_000 * (days - 1) < nanos <= 86_400_000_000_000 * days
            &&& earlier.whole_days_since(later) == -days
        }),
{
}

/// A later deadline leaves no fewer whole days, and a day more leaves one day more.
pub proof fn law_whole_days_follow_the_deadline(deadline: Timestamp, now: Timestamp)
    requires
        deadline.valid(),
        deadline.nanos < SECOND_NANOS,
        now.nanos < SECOND_NANOS,
        !deadline.before(now),
        deadline.days_later(1) is Some,
    ensures
        (deadline.days_later(1)->0).whole_days_since(now) == deadline.whole_days_since(now) + 1,
{
}

/// A thing is fresh from when it was made until it is as old as its lifetime, and not from
/// then on; with no lifetime it never is.
pub proof fn law_freshness(since: Nanos, now: Nanos, ttl: Nanos, fresh: bool)
    requires
        call_ensures(is_fresh, (since, now, ttl), fresh),
    ensures
        since <= now ==> (fresh <==> now < since + ttl),
        now < since ==> (fresh <==> ttl > 0),
        ttl == 0 ==> !fresh,
{
}

/// Which instants the calendar holds: those of the seconds from its first to its last with
/// less than a second of nanoseconds, and leap seconds at the end of any minute.
pub proof fn law_what_the_calendar_holds(at: Timestamp)
    ensures
        -8_334_601_228_800 <= at.secs <= 8_210_266_876_799 && at.nanos < 1_000_000_000
            ==> at.valid(),
        -8_334_601_228_800 <= at.secs <= 8_210_266_876_799 && at.nanos < 2_000_000_000
            && at.secs as int % 60 == 59 ==> at.valid(),
        at.valid() ==> -8_334_601_228_800 <= at.secs <= 8_210_266_876_799 && at.nanos
            < 2_000_000_000,
        at.valid() && at.nanos >= 1_000_000_000 ==> at.secs as int % 60 == 59,
{
}

/// Out of a leap second whole days lead to the second that follows it: going on, to so many
/// times 24 hours after the second before it, and going back, to a second less far.
pub proof fn law_days_out_of_a_leap_second(start: Timestamp, days: int)
    requires
        start.nanos >= SECOND_NANOS,
        start.days_later(days) is Some,
        days != 0,
    ensures
        (start.days_later(days)->0).nanos == start.nanos - 1_000_000_000,
        days > 0 ==> (start.days_later(days)->0).secs == start.secs + 86_400 * days,
        days < 0 ==> (start.days_later(days)->0).secs == start.secs + 86_400 * days + 1,
        start.days_later(0) is Some ==> start.days_later(0) == Some(start),
{
}

} // verus!
