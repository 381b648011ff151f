//! Wall-clock time: the current instant, the machine's offset from UTC, and
//! how an instant reads at a given offset.

use crate::text::digits;
use chrono::TimeZone;
use vstd::prelude::*;

verus! {

/// The first millisecond that a calendar date exists for.
pub const FIRST_MS: i64 = -8_334_601_228_800_000;

/// The last millisecond that a calendar date exists for.
pub const LAST_MS: i64 = 8_210_266_876_799_999;

/// The instant has a calendar date.
pub open spec fn representable(ms: int) -> bool {
    FIRST_MS <= ms <= LAST_MS
}

/// A difference from UTC, in seconds, of less than a day.
pub open spec fn valid_offset(offset: int) -> bool {
    -86_400 < offset < 86_400
}

/// The patterns in use: a time of day, a short date and a long date.
pub open spec fn known_pattern(p: Seq<char>) -> bool {
    p == "%H:%M"@ || p == "%b %-d"@ || p == "%B %-d, %Y"@
}

/// A number below 100 with two digits.
pub open spec fn two_digits(n: nat) -> Seq<char> {
    if n < 10 {
        seq!['0'] + digits(n)
    } else {
        digits(n)
    }
}

/// Seconds since the epoch on the local clock.
pub open spec fn local_seconds(ms: int, offset: int) -> int {
    ms / 1000 + offset
}

/// Days since the epoch on the local calendar.
pub open spec fn local_day(ms: int, offset: int) -> int {
    local_seconds(ms, offset) / 86_400
}

/// Hours and minutes of the local time of day.
pub open spec fn hour_minute(ms: int, offset: int) -> Seq<char> {
    let second = local_seconds(ms, offset) % 86_400;
    two_digits((second / 3600) as nat) + seq![':'] + two_digits((second % 3600 / 60) as nat)
}

// ---------- The calendar ----------

/// A date of the Gregorian calendar, which is taken to hold at all times.
pub struct Date {
    pub year: int,
    pub month: int,
    pub day: int,
}

/// Whether a year has a 29th of February.
pub open spec fn leap_year(year: int) -> bool {
    year % 4 == 0 && (year % 100 != 0 || year % 400 == 0)
}

/// The number of days of a month.
pub open spec fn month_days(year: int, month: int) -> int {
    if month == 2 {
        if leap_year(year) {
            29
        } else {
            28
        }
    } else if month == 4 || month == 6 || month == 9 || month == 11 {
        30
    } else {
        31
    }
}

/// Days from the epoch to the first day of a year.
pub open spec fn year_start(year: int) -> int {
    365 * (year - 1970) + ((year - 1) / 4 - (year - 1) / 100 + (year - 1) / 400) - 477
}

/// Days from the first day of a year to the first day of a month.
pub open spec fn month_start(year: int, month: int) -> int
    decreases month,
{
    if month <= 1 {
        0
    } else {
        month_start(year, month - 1) + month_days(year, month - 1)
    }
}

impl Date {
    /// There is such a date.
    pub open spec fn exists_in_calendar(self) -> bool {
        1 <= self.month <= 12 && 1 <= self.day <= month_days(self.year, self.month)
    }

    /// Days since the epoch.
    pub open spec fn number(self) -> int {
        year_start(self.year) + month_start(self.year, self.month) + self.day - 1
    }
}

/// The date of a day since the epoch.
pub open spec fn date_of(day: int) -> Date {
    choose|d: Date| d.exists_in_calendar() && #[trigger] d.number() == day
}

/// The name of a month.
pub open spec fn month_name(month: int) -> Seq<char> {
    if month == 1 {
        "January"@
    } else if month == 2 {
        "February"@
    } else if month == 3 {
        "March"@
    } else if month == 4 {
        "April"@
    } else if month == 5 {
        "May"@
    } else if month == 6 {
        "June"@
    } else if month == 7 {
        "July"@
    } else if month == 8 {
        "August"@
    } else if month == 9 {
        "September"@
    } else if month == 10 {
        "October"@
    } else if month == 11 {
        "November"@
    } else {
        "December"@
    }
}

/// A number with at least four digits.
pub open spec fn four_digits(n: nat) -> Seq<char> {
    if n < 10 {
        seq!['0', '0', '0'] + digits(n)
    } else if n < 100 {
        seq!['0', '0'] + digits(n)
    } else if n < 1000 {
        seq!['0'] + digits(n)
    } else {
        digits(n)
    }
}

/// A year; beyond four digits and before the year zero with its sign.
pub open spec fn year_text(year: int) -> Seq<char> {
    if year < 0 {
        seq!['-'] + four_digits((-year) as nat)
    } else if year < 10_000 {
        four_digits(year as nat)
    } else {
        seq!['+'] + digits(year as nat)
    }
}

/// The first three letters of the month, and the day.
pub open spec fn short_date(ms: int, offset: int) -> Seq<char> {
    let d = date_of(local_day(ms, offset));
    month_name(d.month).take(3) + seq![' '] + digits(d.day as nat)
}

/// The month, the day and the year.
pub open spec fn long_date(ms: int, offset: int) -> Seq<char> {
    let d = date_of(local_day(ms, offset));
    month_name(d.month) + seq![' '] + digits(d.day as nat) + seq![',', ' '] + year_text(d.year)
}

proof fn lemma_month_start(year: int, month: int)
    requires
        1 <= month <= 12,
    ensures
        0 <= month_start(year, month),
        month_start(year, month) + month_days(year, month) <= 365 + if leap_year(year) {
            1int
        } else {
            0
        },
{
    reveal_with_fuel(month_start, 13);
}

proof fn lemma_month_order(year: int, a: int, b: int)
    requires
        1 <= a < b <= 12,
    ensures
        month_start(year, a) + month_days(year, a) <= month_start(year, b),
    decreases b - a,
{
    if a + 1 < b {
        lemma_month_order(year, a, b - 1);
    }
}

proof fn lemma_year_order(a: int, b: int)
    requires
        a < b,
    ensures
        year_start(a) + 365 + (if leap_year(a) {
            1int
        } else {
            0
        }) <= year_start(b),
    decreases b - a,
{
    if a + 1 < b {
        lemma_year_order(a, b - 1);
    }
}

/// No day has two dates.
pub proof fn days_have_one_date(a: Date, b: Date)
    requires
        a.exists_in_calendar(),
        b.exists_in_calendar(),
        a.number() == b.number(),
    ensures
        a == b,
{
    lemma_month_start(a.year, a.month);
    lemma_month_start(b.year, b.month);
    if a.year < b.year {
        lemma_year_order(a.year, b.year);
    } else if b.year < a.year {
        lemma_year_order(b.year, a.year);
    } else if a.month < b.month {
        lemma_month_order(a.year, a.month, b.month);
    } else if b.month < a.month {
        lemma_month_order(a.year, b.month, a.month);
    }
}

// ---------- The machine's clock ----------

/// `chrono::Utc::now` with `DateTime::timestamp_millis`: the system clock. It
/// is at or after the epoch and has a calendar date; nothing else is known
/// of it.
#[verifier::external_body]
pub(crate) fn now_ms() -> (r: i64)
    ensures
        0 <= r <= LAST_MS,
{
    chrono::Utc::now().timestamp_millis()
}

/// `chrono::Local.timestamp_millis_opt` and the offset of the date it gives:
/// the machine's difference from UTC, in seconds, at that instant. It exists
/// exactly for the instants that have a calendar date; which offset it is
/// depends on the machine.
#[verifier::external_body]
pub(crate) fn local_offset(ms: i64) -> (r: Option<i32>)
    ensures
        r is Some == representable(ms as int),
        r is Some ==> valid_offset(r->0 as int),
{
    match chrono::Local.timestamp_millis_opt(ms) {
        chrono::LocalResult::Single(date) => Some(date.offset().local_minus_utc()),
        _ => None,
    }
}

/// `DateTime::format` on the date of an instant at a fixed offset
/// (`FixedOffset::east_opt`, `timestamp_millis_opt`). There is a text exactly
/// where the instant has a calendar date. The pattern `%H:%M` gives the hour
/// and the minute of the local time of day, two digits each; `%b` and `%B`
/// the month's name, short and long; `%-d` the day of the month without
/// padding; `%Y` the year with at least four digits.
#[verifier::external_body]
pub(crate) fn format_at(ms: i64, offset: i32, pattern: &str) -> (r: Option<String>)
    requires
        valid_offset(offset as int),
        known_pattern(pattern@),
    ensures
        r is Some == representable(ms as int),
        r is Some && pattern@ == "%H:%M"@ ==> r->0@ == hour_minute(ms as int, offset as int),
        r is Some && pattern@ == "%b %-d"@ ==> r->0@ == short_date(ms as int, offset as int),
        r is Some && pattern@ == "%B %-d, %Y"@ ==> r->0@ == long_date(ms as int, offset as int),
{
    let zone = chrono::FixedOffset::east_opt(offset)?;
    match zone.timestamp_millis_opt(ms) {
        chrono::LocalResult::Single(date) => Some(date.format(pattern).to_string()),
        _ => None,
    }
}

/// Days since the epoch on the local calendar, computed.
pub(crate) fn day_number(ms: i64, offset: i32) -> (day: i64)
    requires
        representable(ms as int),
        valid_offset(offset as int),
    ensures
        day == local_day(ms as int, offset as int),
        -200_000_000 <= day <= 200_000_000,
{
    // 200 million days make the arithmetic non-negative.
    let shifted: u64 = (ms + 17_280_000_000_000_000) as u64;
    let seconds: u64 = shifted / 1000;
    assert(seconds == ms as int / 1000 + 17_280_000_000_000);
    let local: u64 = (seconds as i64 + offset as i64) as u64;
    let days: u64 = local / 86_400;
    assert(local == local_seconds(ms as int, offset as int) + 17_280_000_000_000);
    assert(days == local_day(ms as int, offset as int) + 200_000_000);
    days as i64 - 200_000_000
}

} // verus!
