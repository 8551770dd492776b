use vstd::prelude::*;

use crate::text::dec_digits;

verus! {

/// A leap year of the Gregorian calendar.
pub open spec fn is_leap(y: int) -> bool {
    (y % 4 == 0 && y % 100 != 0) || y % 400 == 0
}

/// The number of days of month `m` of year `y`.
pub open spec fn month_days(y: int, m: int) -> int {
    if m == 2 {
        if is_leap(y) {
            29
        } else {
            28
        }
    } else if m == 4 || m == 6 || m == 9 || m == 11 {
        30
    } else {
        31
    }
}

/// The number of leap years from year 1 up to, not including, year `y`.
pub open spec fn leaps_before(y: int) -> int {
    (y - 1) / 4 - (y - 1) / 100 + (y - 1) / 400
}

/// The days from 1970-01-01 to the first day of year `y`.
pub open spec fn days_before_year(y: int) -> int {
    365 * (y - 1970) + leaps_before(y) - leaps_before(1970)
}

/// The days of year `y` before the first day of month `m`.
pub open spec fn days_before_month(y: int, m: int) -> int
    decreases m,
{
    if m <= 1 {
        0
    } else {
        days_before_month(y, m - 1) + month_days(y, m - 1)
    }
}

/// A date of the calendar, from 1970 on.
pub open spec fn valid_date(y: int, m: int, d: int) -> bool {
    y >= 1970 && 1 <= m <= 12 && 1 <= d <= month_days(y, m)
}

/// The number of the day `y-m-d`, counting 1970-01-01 as day 0.
pub open spec fn day_number(y: int, m: int, d: int) -> int {
    days_before_year(y) + days_before_month(y, m) + d - 1
}

/// A number written with at least two digits.
pub open spec fn two_digits(n: int) -> Seq<char> {
    if n < 10 {
        seq!['0'] + dec_digits(n as nat)
    } else {
        dec_digits(n as nat)
    }
}

/// A date written `YYYY-MM-DD`.
pub open spec fn ymd_text(y: int, m: int, d: int) -> Seq<char> {
    dec_digits(y as nat) + seq!['-'] + two_digits(m) + seq!['-'] + two_digits(d)
}

/// The UTC calendar date, as `YYYY-MM-DD`, of a time given in milliseconds since
/// 1970-01-01T00:00:00Z: the date whose day number is the count of whole days elapsed.
pub open spec fn utc_date_text(ms: int) -> Seq<char> {
    let (y, m, d) = choose|y: int, m: int, d: int|
        valid_date(y, m, d) && day_number(y, m, d) == ms / 86_400_000;
    ymd_text(y, m, d)
}

proof fn lemma_next_year(y: int)
    requires
        y >= 1,
    ensures
        days_before_year(y + 1) == days_before_year(y) + 365 + if is_leap(y) {
            1int
        } else {
            0int
        },
{
}

proof fn lemma_years_increase(a: int, b: int)
    requires
        1 <= a <= b,
    ensures
        days_before_year(b) - days_before_year(a) >= 365 * (b - a),
    decreases b - a,
{
    if a < b {
        lemma_years_increase(a, b - 1);
        lemma_next_year(b - 1);
    }
}

proof fn lemma_months(y: int)
    ensures
        days_before_month(y, 1) == 0,
        days_before_month(y, 13) == 365 + if is_leap(y) {
            1int
        } else {
            0int
        },
        forall|m: int| 1 <= m <= 12 ==> days_before_month(y, m + 1) == days_before_month(y, m) + month_days(y, m),
        forall|a: int, b: int| 1 <= a <= b <= 13 ==> days_before_month(y, a) <= days_before_month(y, b),
{
    reveal_with_fuel(days_before_month, 13);
}

/// A valid date lies within its year: after the year's first day and before the next year's.
proof fn lemma_within_year(y: int, m: int, d: int)
    requires
        valid_date(y, m, d),
    ensures
        days_before_year(y) <= day_number(y, m, d) < days_before_year(y + 1),
{
    lemma_months(y);
    lemma_next_year(y);
}

/// Two valid dates with the same day number are the same date.
pub proof fn lemma_day_number_unique(y1: int, m1: int, d1: int, y2: int, m2: int, d2: int)
    requires
        valid_date(y1, m1, d1),
        valid_date(y2, m2, d2),
        day_number(y1, m1, d1) == day_number(y2, m2, d2),
    ensures
        y1 == y2 && m1 == m2 && d1 == d2,
{
    lemma_within_year(y1, m1, d1);
    lemma_within_year(y2, m2, d2);
    if y1 < y2 {
        lemma_years_increase(y1 + 1, y2);
    } else if y2 < y1 {
        lemma_years_increase(y2 + 1, y1);
    }
    assert(y1 == y2);
    lemma_months(y1);
    if m1 < m2 {
        assert(days_before_month(y1, m1 + 1) <= days_before_month(y1, m2));
    } else if m2 < m1 {
        assert(days_before_month(y1, m2 + 1) <= days_before_month(y1, m1));
    }
}

/// The date text of a time on day `y-m-d` is `y-m-d` written out.
pub proof fn lemma_utc_date_text(y: int, m: int, d: int, ms: int)
    requires
        valid_date(y, m, d),
        ms / 86_400_000 == day_number(y, m, d),
    ensures
        utc_date_text(ms) == ymd_text(y, m, d),
{
    let (y2, m2, d2) = choose|y2: int, m2: int, d2: int|
        valid_date(y2, m2, d2) && day_number(y2, m2, d2) == ms / 86_400_000;
    assert(valid_date(y2, m2, d2) && day_number(y2, m2, d2) == ms / 86_400_000);
    lemma_day_number_unique(y, m, d, y2, m2, d2);
}

} // verus!
