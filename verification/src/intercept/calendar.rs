//! The Gregorian calendar: from day numbers to dates.

use vstd::prelude::*;

verus! {

/// Whether a year has a 29th of February.
pub open spec fn is_leap(y: int) -> bool {
    y % 4 == 0 && (y % 100 != 0 || y % 400 == 0)
}

/// How many days a month has.
pub open spec fn days_in_month(y: int, m: int) -> int {
    if m == 2 {
        if is_leap(y) {
            29
        } else {
            28
        }
    } else if m == 4 || m == 6 || m == 9 || m == 11 {
        30
    } else {
        31
    }
}

/// Whether year, month and day make a date.
pub open spec fn is_date(y: int, m: int, d: int) -> bool {
    1 <= m <= 12 && 1 <= d <= days_in_month(y, m)
}

/// How many days of a year come before a month.
pub open spec fn days_before_month(y: int, m: int) -> int
    decreases m,
{
    if m <= 1 {
        0
    } else {
        days_before_month(y, m - 1) + days_in_month(y, m - 1)
    }
}

/// How many leap years there are among the years 1 to `y`, less those from
/// `y + 1` to 0 where `y` is negative.
pub open spec fn leaps_through(y: int) -> int {
    y / 4 - y / 100 + y / 400
}

/// How many days lie between the first of January 1970 and the first of January
/// of a year.
pub open spec fn days_before_year(y: int) -> int {
    365 * (y - 1970) + leaps_through(y - 1) - leaps_through(1969)
}

/// How many days lie between the first of January 1970 and a date.
pub open spec fn day_number(y: int, m: int, d: int) -> int {
    days_before_year(y) + days_before_month(y, m) + d - 1
}

/// A year has 366 days if it is a leap year, and 365 otherwise.
pub proof fn law_year_length(y: int)
    ensures
        days_before_year(y + 1) - days_before_year(y) == if is_leap(y) {
            366int
        } else {
            365
        },
{
    assert(y / 4 - (y - 1) / 4 == if y % 4 == 0 { 1int } else { 0 });
    assert(y / 100 - (y - 1) / 100 == if y % 100 == 0 { 1int } else { 0 });
    assert(y / 400 - (y - 1) / 400 == if y % 400 == 0 { 1int } else { 0 });
    assert(y % 400 == 0 ==> y % 100 == 0);
    assert(y % 100 == 0 ==> y % 4 == 0);
}

/// The days before each month, counted in the year that starts in March.
proof fn lemma_month_table(y: int)
    ensures
        days_before_month(y, 1) == 0,
        days_before_month(y, 2) == 31,
        days_before_month(y, 3) == 31 + days_in_month(y, 2),
        days_before_month(y, 4) == 62 + days_in_month(y, 2),
        days_before_month(y, 5) == 92 + days_in_month(y, 2),
        days_before_month(y, 6) == 123 + days_in_month(y, 2),
        days_before_month(y, 7) == 153 + days_in_month(y, 2),
        days_before_month(y, 8) == 184 + days_in_month(y, 2),
        days_before_month(y, 9) == 215 + days_in_month(y, 2),
        days_before_month(y, 10) == 245 + days_in_month(y, 2),
        days_before_month(y, 11) == 276 + days_in_month(y, 2),
        days_before_month(y, 12) == 306 + days_in_month(y, 2),
{
    reveal_with_fuel(days_before_month, 13);
}

/// The day numbers of a year start with that of its first of January, and all
/// come before that of the next.
proof fn lemma_date_within_year(y: int, m: int, d: int)
    requires
        is_date(y, m, d),
    ensures
        days_before_year(y) <= day_number(y, m, d) < days_before_year(y + 1),
{
    lemma_month_table(y);
    law_year_length(y);
    assert(m == 1 || m == 2 || m == 3 || m == 4 || m == 5 || m == 6 || m == 7 || m == 8 || m == 9
        || m == 10 || m == 11 || m == 12);
}

proof fn lemma_years_ascend(a: int, b: int)
    requires
        a <= b,
    ensures
        days_before_year(a) <= days_before_year(b),
    decreases b - a,
{
    if a < b {
        law_year_length(a);
        lemma_years_ascend(a + 1, b);
    }
}

/// No two dates have the same day number.
pub proof fn law_day_number_is_unique(y1: int, m1: int, d1: int, y2: int, m2: int, d2: int)
    requires
        is_date(y1, m1, d1),
        is_date(y2, m2, d2),
        day_number(y1, m1, d1) == day_number(y2, m2, d2),
    ensures
        y1 == y2 && m1 == m2 && d1 == d2,
{
    lemma_date_within_year(y1, m1, d1);
    lemma_date_within_year(y2, m2, d2);
    if y1 < y2 {
        lemma_years_ascend(y1 + 1, y2);
    } else if y2 < y1 {
        lemma_years_ascend(y2 + 1, y1);
    }
    lemma_month_table(y1);
    assert(m1 == 1 || m1 == 2 || m1 == 3 || m1 == 4 || m1 == 5 || m1 == 6 || m1 == 7 || m1 == 8
        || m1 == 9 || m1 == 10 || m1 == 11 || m1 == 12);
    assert(m2 == 1 || m2 == 2 || m2 == 3 || m2 == 4 || m2 == 5 || m2 == 6 || m2 == 7 || m2 == 8
        || m2 == 9 || m2 == 10 || m2 == 11 || m2 == 12);
}

/// Dates come in the order of their day numbers: by year, then by month, then by
/// day.
pub proof fn law_dates_ascend(y1: int, m1: int, d1: int, y2: int, m2: int, d2: int)
    requires
        is_date(y1, m1, d1),
        is_date(y2, m2, d2),
        day_number(y1, m1, d1) <= day_number(y2, m2, d2),
    ensures
        y1 < y2 || (y1 == y2 && (m1 < m2 || (m1 == m2 && d1 <= d2))),
{
    lemma_date_within_year(y1, m1, d1);
    lemma_date_within_year(y2, m2, d2);
    if y2 < y1 {
        lemma_years_ascend(y2 + 1, y1);
    }
    lemma_month_table(y1);
    assert(m1 == 1 || m1 == 2 || m1 == 3 || m1 == 4 || m1 == 5 || m1 == 6 || m1 == 7 || m1 == 8
        || m1 == 9 || m1 == 10 || m1 == 11 || m1 == 12);
    assert(m2 == 1 || m2 == 2 || m2 == 3 || m2 == 4 || m2 == 5 || m2 == 6 || m2 == 7 || m2 == 8
        || m2 == 9 || m2 == 10 || m2 == 11 || m2 == 12);
}

/// The date with a day number.
pub open spec fn date_of(z: int) -> (int, int, int) {
    choose|date: (int, int, int)|
        #[trigger] is_date(date.0, date.1, date.2) && day_number(date.0, date.1, date.2) == z
}

/// A date comes back from its day number.
pub proof fn law_date_round_trip(y: int, m: int, d: int)
    requires
        is_date(y, m, d),
    ensures
        date_of(day_number(y, m, d)) == (y, m, d),
{
    let z = day_number(y, m, d);
    let date = (y, m, d);
    assert(is_date(date.0, date.1, date.2) && day_number(date.0, date.1, date.2) == z);
    let found = date_of(z);
    law_day_number_is_unique(found.0, found.1, found.2, y, m, d);
}

/// No date before 1970 has a day number from 0 on.
pub proof fn lemma_year_is_positive(y: int, m: int, d: int)
    requires
        is_date(y, m, d),
        day_number(y, m, d) >= 0,
    ensures
        y >= 1970,
{
    lemma_date_within_year(y, m, d);
    if y < 1970 {
        lemma_years_ascend(y + 1, 1970);
    }
}

/// A day before the end of a year is in that year or an earlier one.
pub proof fn lemma_year_is_at_most(y: int, m: int, d: int, last: int)
    requires
        is_date(y, m, d),
        day_number(y, m, d) < days_before_year(last + 1),
    ensures
        y <= last,
{
    lemma_date_within_year(y, m, d);
    if y > last {
        lemma_years_ascend(last + 1, y);
    }
}

/// Every day number has a date.
pub proof fn lemma_date_exists(z: int)
    ensures
        ({
            let (y, m, d) = date_of(z);
            is_date(y, m, d) && day_number(y, m, d) == z
        }),
{
    let days = z + 719468;
    let era = days / 146097;
    let doe = (days % 146097) as u32;
    let n = (doe - doe / 1460 + doe / 36524 - doe / 146096) as u32;
    let yoe = n / 365;
    let before = (365 * yoe + yoe / 4 - yoe / 100) as u32;
    lemma_year_of_era(doe, n, yoe, before);
    let doy = doe - before;
    let mp = (5 * doy + 2) / 153;
    lemma_march_date(era, yoe as int, doy, mp);
    let m = if mp < 10 {
        mp + 3
    } else {
        mp - 9
    };
    let date = (
        yoe + era * 400 + (if m <= 2 {
            1int
        } else {
            0
        }),
        m,
        doy - (153 * mp + 2) / 5 + 1,
    );
    assert(is_date(date.0, date.1, date.2) && day_number(date.0, date.1, date.2) == z);
}

/// How a day of a 400-year era splits into a year of the era and a day of that
/// year, where years start in March.
proof fn lemma_year_of_era(doe: u32, n: u32, yoe: u32, before: u32)
    requires
        doe <= 146096,
        n == doe - doe / 1460 + doe / 36524 - doe / 146096,
        yoe == n / 365,
        before == 365 * yoe + yoe / 4 - yoe / 100,
    ensures
        yoe <= 399,
        before <= doe,
        doe - before <= 365,
        doe - before == 365 ==> (yoe + 1) % 4 == 0 && ((yoe + 1) % 100 != 0 || yoe == 399),
{
}

/// Convert days since the first of January 1970 to year, month and day.
pub fn days_to_ymd(days: i64) -> (r: (i64, u32, u32))
    requires
        days <= i64::MAX - 719468,
    ensures
        is_date(r.0 as int, r.1 as int, r.2 as int),
        day_number(r.0 as int, r.1 as int, r.2 as int) == days,
{
    // Count from the first of March of year 0, in eras of 400 years.
    let z: i64 = days + 719468;
    let era: i64 = if z >= 0 {
        z / 146097
    } else {
        -((146096 - z) / 146097)
    };
    let doe: u32 = (z - era * 146097) as u32;
    let n: u32 = doe - doe / 1460 + doe / 36524 - doe / 146096;
    let yoe: u32 = n / 365;
    let before: u32 = 365 * yoe + yoe / 4 - yoe / 100;
    proof {
        lemma_year_of_era(doe, n, yoe, before);
    }
    let year: i64 = yoe as i64 + era * 400;
    let doy: u32 = doe - before;
    let mp: u32 = (5 * doy + 2) / 153;
    let d: u32 = doy - (153 * mp + 2) / 5 + 1;
    let m: u32 = if mp < 10 {
        mp + 3
    } else {
        mp - 9
    };
    let y: i64 = if m <= 2 {
        year + 1
    } else {
        year
    };
    proof {
        lemma_march_date(era as int, yoe as int, doy as int, mp as int);
    }
    (y, m, d)
}

/// The date of a day of a year that starts in March.
proof fn lemma_march_date(era: int, yoe: int, doy: int, mp: int)
    requires
        0 <= yoe <= 399,
        0 <= doy <= 365,
        doy == 365 ==> (yoe + 1) % 4 == 0 && ((yoe + 1) % 100 != 0 || yoe == 399),
        mp == (5 * doy + 2) / 153,
    ensures
        ({
            let d = doy - (153 * mp + 2) / 5 + 1;
            let m = if mp < 10 {
                mp + 3
            } else {
                mp - 9
            };
            let y = yoe + era * 400 + (if m <= 2 {
                1int
            } else {
                0
            });
            &&& is_date(y, m, d)
            &&& day_number(y, m, d) == era * 146097 + 365 * yoe + yoe / 4 - yoe / 100 + doy - 719468
        }),
{
    let d = doy - (153 * mp + 2) / 5 + 1;
    let m = if mp < 10 {
        mp + 3
    } else {
        mp - 9
    };
    let y0 = yoe + era * 400;
    assert(0 <= mp <= 11);
    assert(mp == 0 || mp == 1 || mp == 2 || mp == 3 || mp == 4 || mp == 5 || mp == 6 || mp == 7
        || mp == 8 || mp == 9 || mp == 10 || mp == 11);
    lemma_month_table(y0);
    lemma_month_table(y0 + 1);
    // Eras of 400 years.
    assert(y0 / 4 == yoe / 4 + 100 * era);
    assert(y0 / 100 == yoe / 100 + 4 * era);
    assert(y0 / 400 == era);
    assert((y0 + 1) % 4 == (yoe + 1) % 4);
    assert((y0 + 1) % 100 == (yoe + 1) % 100);
    assert((y0 + 1) % 400 == (yoe + 1) % 400);
    law_year_length(y0);
}

} // verus!
