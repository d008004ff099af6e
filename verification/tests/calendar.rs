//! Day numbers and dates.

use oms_modbus::intercept::days_to_ymd;

#[test]
fn epoch_zero() {
    let (y, m, d) = days_to_ymd(0);
    assert_eq!((y, m, d), (1970, 1, 1));
}

#[test]
fn day_one() {
    let (y, m, d) = days_to_ymd(1);
    assert_eq!((y, m, d), (1970, 1, 2));
}

#[test]
fn day_364_before_year_roll() {
    let (y, m, d) = days_to_ymd(364);
    assert_eq!((y, m, d), (1970, 12, 31));
}

#[test]
fn day_365_year_roll() {
    let (y, m, d) = days_to_ymd(365);
    assert_eq!((y, m, d), (1971, 1, 1));
}

#[test]
fn year_2000_jan_1() {
    // 1970-01-01 → 2000-01-01: 30 years (1970–1999)
    // Leap years: 1972,76,80,84,88,92,96 = 7 of 30 years
    // Days: 23×365 + 7×366 = 8395 + 2562 = 10957
    let (y, m, d) = days_to_ymd(10957);
    assert_eq!((y, m, d), (2000, 1, 1));
}

#[test]
fn feb_29_leap_year() {
    // 1972-02-29: days from epoch =
    //   1970(365) + 1971(365) + Jan-1972(31) + 28 days of Feb = 789
    let (y, m, d) = days_to_ymd(789);
    assert_eq!((y, m, d), (1972, 2, 29));
}

#[test]
fn year_2026_august() {
    // 1970-2025: 56 years. 14 leap years (1972..2024).
    // Full years: 42×365 + 14×366 = 15330 + 5124 = 20454
    // 2026 before Aug 10: Jan(31)+Feb(28)+Mar(31)+Apr(30)+May(31)+Jun(30)+Jul(31)+9 = 221
    // Total: 20454 + 221 = 20675
    let (y, m, d) = days_to_ymd(20675);
    assert_eq!((y, m, d), (2026, 8, 10));
}

#[test]
fn far_future_year_2100() {
    // 2100 is NOT a leap year (divisible by 100 but not 400)
    // 1970-2099: 130 years, 32 leap years
    // Days: 98×365 + 32×366 = 35770 + 11712 = 47482
    let (y, m, d) = days_to_ymd(47482);
    assert_eq!((y, m, d), (2100, 1, 1));
}

#[test]
fn negative_days_before_epoch() {
    let (y, m, d) = days_to_ymd(-1);
    assert_eq!((y, m, d), (1969, 12, 31));
}
