//! Times and sizes as text.

use vstd::prelude::*;
use crate::text::{decimal, decimal_text, digit_char, join, join3};

verus! {

/// A number below 100 in two digits.
pub open spec fn two_digits(n: int) -> Seq<char> {
    seq![digit_char((n / 10) as nat), digit_char((n % 10) as nat)]
}

/// Whether the Gregorian year `y` is a leap year.
pub open spec fn is_leap_year(y: int) -> bool {
    y % 4 == 0 && (y % 100 != 0 || y % 400 == 0)
}

/// How many days of a year lie before the month `m`.
pub open spec fn days_before_month(y: int, m: int) -> int
    decreases m,
{
    if m <= 1 {
        0
    } else {
        days_before_month(y, m - 1) + days_in_month(y, m - 1)
    }
}

/// How many days the month `m` of the year `y` has.
pub open spec fn days_in_month(y: int, m: int) -> int {
    if m == 2 {
        if is_leap_year(y) {
            29
        } else {
            28
        }
    } else if m == 4 || m == 6 || m == 9 || m == 11 {
        30
    } else {
        31
    }
}

/// How many leap days lie in the years 1 to `y`.
pub open spec fn leap_days_through(y: int) -> int {
    y / 4 - y / 100 + y / 400
}

/// The number of a day in the Gregorian calendar, counted from January 1, 1970.
pub open spec fn day_number(y: int, m: int, d: int) -> int {
    365 * (y - 1970) + leap_days_through(y - 1) - leap_days_through(1969) + days_before_month(y, m)
        + d - 1
}

/// Whether the day with the given number is the day `d` of the month `m` of the year `y`.
pub open spec fn is_day(number: int, y: int, m: int, d: int) -> bool {
    1 <= m <= 12 && 1 <= d <= days_in_month(y, m) && day_number(y, m, d) == number
}

/// The number of the day that a time in milliseconds since 1970 lies in.
pub open spec fn day_of_millis(millis: int) -> int {
    millis / 86400000
}

/// The time of day, as hours, minutes and seconds.
pub open spec fn clock_text(millis: int) -> Seq<char> {
    let seconds = (millis / 1000) % 86400;
    two_digits(seconds / 3600) + seq![':'] + two_digits(seconds / 60 % 60) + seq![':'] + two_digits(
        seconds % 60,
    )
}

/// A month and a day, and the time of day.
pub open spec fn moment_text(month: int, day: int, millis: int) -> Seq<char> {
    two_digits(month) + seq!['-'] + two_digits(day) + seq![' '] + clock_text(millis)
}

/// Whether the day of a time lies in a year from -262143 to 262142.
pub open spec fn in_calendar(millis: int) -> bool {
    exists|y: int, m: int, d: int|
        #[trigger] is_day(day_of_millis(millis), y, m, d) && -262143 <= y <= 262142
}

/// The first day of a year.
spec fn new_year(y: int) -> int {
    365 * (y - 1970) + leap_days_through(y - 1) - leap_days_through(1969)
}

proof fn lemma_year_length(y: int)
    ensures
        new_year(y + 1) == new_year(y) + days_before_month(y, 13),
        days_before_month(y, 13) == 365 + (if is_leap_year(y) {
            1int
        } else {
            0
        }),
{
    reveal_with_fuel(days_before_month, 14);
    assert(y / 4 - (y - 1) / 4 == (if y % 4 == 0 {
        1int
    } else {
        0
    }));
    assert(y / 100 - (y - 1) / 100 == (if y % 100 == 0 {
        1int
    } else {
        0
    }));
    assert(y / 400 - (y - 1) / 400 == (if y % 400 == 0 {
        1int
    } else {
        0
    }));
}

proof fn lemma_later_years(y: int, z: int)
    requires
        y < z,
    ensures
        new_year(y + 1) <= new_year(z),
    decreases z - y,
{
    if y + 1 < z {
        lemma_year_length(y + 1);
        lemma_later_years(y + 1, z);
    }
}

proof fn lemma_later_months(y: int, m: int, k: int)
    requires
        1 <= m < k <= 13,
    ensures
        days_before_month(y, m) + days_in_month(y, m) <= days_before_month(y, k),
        0 <= days_before_month(y, m),
    decreases k - m,
{
    reveal_with_fuel(days_before_month, 14);
    assert(days_before_month(y, m + 1) == days_before_month(y, m) + days_in_month(y, m));
    if m + 1 < k {
        lemma_later_months(y, m + 1, k);
    }
}

/// A day has one date: the calendar gives no number of a day twice.
pub proof fn law_a_day_has_one_date(
    number: int,
    y: int,
    m: int,
    d: int,
    other_y: int,
    other_m: int,
    other_d: int,
)
    requires
        is_day(number, y, m, d),
        is_day(number, other_y, other_m, other_d),
    ensures
        y == other_y,
        m == other_m,
        d == other_d,
{
    lemma_later_months(y, m, 13);
    lemma_later_months(other_y, other_m, 13);
    lemma_year_length(y);
    lemma_year_length(other_y);
    assert(new_year(y) <= number < new_year(y + 1));
    assert(new_year(other_y) <= number < new_year(other_y + 1));
    if y < other_y {
        lemma_later_years(y, other_y);
    } else if other_y < y {
        lemma_later_years(other_y, y);
    }
    if m < other_m {
        lemma_later_months(y, m, other_m);
    } else if other_m < m {
        lemma_later_months(y, other_m, m);
    }
}

/// `chrono::DateTime::<Utc>::from_timestamp_millis`, written by `format` and `to_string`
/// with the pattern for month, day and time of day. There is a text for each time whose
/// day lies in the years that chrono's dates reach, and for no other. It shows the day in
/// the Gregorian calendar and the time of day, both in UTC.
#[verifier::external_body]
fn utc_text(millis: i64, pattern: &str) -> (r: Option<String>)
    requires
        pattern@ == "%m-%d %H:%M:%S"@,
    ensures
        r is Some <==> in_calendar(millis as int),
        r is Some ==> exists|y: int, m: int, d: int|
            #[trigger] is_day(day_of_millis(millis as int), y, m, d) && r->0@ == moment_text(
                m,
                d,
                millis as int,
            ),
{
    match chrono::DateTime::<chrono::Utc>::from_timestamp_millis(millis) {
        Some(time) => Some(time.format(pattern).to_string()),
        None => None,
    }
}

/// When a request was sent: month, day and time of day in UTC, or a dash for a time that
/// the calendar does not reach.
pub fn history_time(sent_at: i64) -> (r: String)
    ensures
        if in_calendar(sent_at as int) {
            exists|y: int, m: int, d: int|
                #[trigger] is_day(day_of_millis(sent_at as int), y, m, d) && r@ == moment_text(
                    m,
                    d,
                    sent_at as int,
                )
        } else {
            r@ == "—"@
        },
{
    match utc_text(sent_at, "%m-%d %H:%M:%S") {
        Some(text) => text,
        None => "—".to_owned(),
    }
}

/// A duration in milliseconds as text.
pub open spec fn millis_text(millis: u64) -> Seq<char> {
    decimal_text(millis as nat) + " ms"@
}

/// A duration in milliseconds as text.
pub fn format_millis(millis: u64) -> (r: String)
    ensures
        r@ == millis_text(millis),
{
    join(decimal(millis as u128).as_str(), " ms")
}

/// The whole number nearest to `n / d`, and the even one of two that are as near.
pub open spec fn nearest_even(n: nat, d: nat) -> nat {
    let q = n / d;
    let twice = 2 * (n % d);
    if twice < d || (twice == d && q % 2 == 0) {
        q
    } else {
        q + 1
    }
}

/// The distance of the numbers with 53 binary digits around `n`.
pub open spec fn spacing(n: nat) -> nat
    decreases n,
{
    if n < 0x20_0000_0000_0000 {
        1
    } else {
        2 * spacing(n / 2)
    }
}

/// The number with 53 binary digits that is nearest to `n`.
pub open spec fn in_53_digits(n: nat) -> nat {
    nearest_even(n, spacing(n)) * spacing(n)
}

/// A number of tenths as text, with one digit behind the point.
pub open spec fn tenths_text(tenths: nat) -> Seq<char> {
    decimal_text(tenths / 10) + "."@ + decimal_text(tenths % 10)
}

/// A size in bytes as text: in whole bytes below one kilobyte, else in kilobytes or
/// megabytes with one digit behind the point. Sizes above 53 binary digits are taken in
/// 53 digits.
pub open spec fn size_text(size: u64) -> Seq<char> {
    if size >= 1048576 {
        tenths_text(nearest_even(in_53_digits(size as nat) * 10, 1048576)) + " MB"@
    } else if size >= 1024 {
        tenths_text(nearest_even(size as nat * 10, 1024)) + " KB"@
    } else {
        decimal_text(size as nat) + " B"@
    }
}

fn nearest(n: u128, d: u128) -> (r: u128)
    requires
        0 < d < 0x1_0000_0000_0000_0000,
        n < 0x1_0000_0000_0000_0000_0000_0000,
    ensures
        r == nearest_even(n as nat, d as nat),
{
    let q = n / d;
    let twice = 2 * (n % d);
    if twice < d || (twice == d && q % 2 == 0) {
        q
    } else {
        assert(q <= n) by (nonlinear_arith)
            requires
                q == n / d,
                0 < d,
        ;
        q + 1
    }
}

fn spacing_of(n: u64) -> (r: u64)
    ensures
        r == spacing(n as nat),
        r == 1 || (r > 1 && r * 0x10_0000_0000_0000 <= n),
    decreases n,
{
    if n < 0x20_0000_0000_0000 {
        1
    } else {
        2 * spacing_of(n / 2)
    }
}

fn size_in_53_digits(size: u64) -> (r: u128)
    ensures
        r == in_53_digits(size as nat),
        r <= 0x10000 * (size + 1),
{
    let distance = spacing_of(size) as u128;
    let steps = nearest(size as u128, distance);
    proof {
        let n = size as nat;
        let d = distance as nat;
        assert(n / d <= n) by (nonlinear_arith)
            requires
                0 < d,
        ;
        assert(steps * distance <= 0x10000 * (size + 1)) by (nonlinear_arith)
            requires
                steps <= size + 1,
                distance <= 0x10000,
        ;
    }
    steps * distance
}

fn tenths(n: u128) -> (r: String)
    ensures
        r@ == tenths_text(n as nat),
{
    join3(decimal(n / 10).as_str(), ".", decimal(n % 10).as_str())
}

/// A size in bytes as text.
pub fn format_size(size: u64) -> (r: String)
    ensures
        r@ == size_text(size),
{
    if size >= 1048576 {
        let n = nearest(size_in_53_digits(size) * 10, 1048576);
        join(tenths(n).as_str(), " MB")
    } else if size >= 1024 {
        let n = nearest(size as u128 * 10, 1024);
        join(tenths(n).as_str(), " KB")
    } else {
        join(decimal(size as u128).as_str(), " B")
    }
}

/// A size below 53 binary digits is shown as it is.
pub proof fn law_sizes_are_exact(size: u64)
    requires
        size < 0x20_0000_0000_0000,
    ensures
        in_53_digits(size as nat) == size,
{
    let n = size as nat;
    let one = spacing(n);
    assert(one == 1);
    assert(n % 1 == 0);
    assert(n / 1 == n);
    assert(nearest_even(n, one) == n);
    assert(nearest_even(n, one) * one == n) by (nonlinear_arith)
        requires
            nearest_even(n, one) == n,
            one == 1,
    ;
}

} // verus!
