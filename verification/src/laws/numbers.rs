//! Numbers, sizes and times as text.

use vstd::prelude::*;
use crate::measures::{
    clock_text, in_53_digits, law_sizes_are_exact, millis_text, moment_text, nearest_even, size_text,
    spacing, two_digits,
};
use crate::text::{decimal_text, digit_char};

verus! {

/// The value of a digit.
pub open spec fn digit_value(c: char) -> int {
    c as int - '0' as int
}

/// The number that a run of digits stands for.
pub open spec fn number_in(text: Seq<char>) -> int
    decreases text.len(),
{
    if text.len() == 0 {
        0
    } else {
        10 * number_in(text.drop_last()) + digit_value(text.last())
    }
}

/// Whether a text is made of digits alone.
pub open spec fn digits_only(text: Seq<char>) -> bool {
    forall|i: int| 0 <= i < text.len() ==> '0' <= #[trigger] text[i] <= '9'
}

/// A number is written in digits that stand for it, at least one of them, and without a zero
/// before the others.
pub proof fn law_decimals_stand_for_the_number(n: nat)
    ensures
        digits_only(decimal_text(n)),
        number_in(decimal_text(n)) == n,
        decimal_text(n).len() > 0,
        n > 0 ==> decimal_text(n)[0] != '0',
        n < 10 ==> decimal_text(n).len() == 1,
    decreases n,
{
    let text = decimal_text(n);
    if n < 10 {
        assert(text.drop_last() =~= Seq::<char>::empty());
        assert(number_in(text.drop_last()) == 0);
        assert(text.last() == digit_char(n));
    } else {
        law_decimals_stand_for_the_number(n / 10);
        let upper = decimal_text(n / 10);
        assert(text.drop_last() =~= upper);
        assert(text.last() == digit_char(n % 10));
        assert(text[0] == upper[0]);
        assert forall|i: int| 0 <= i < text.len() implies '0' <= #[trigger] text[i] <= '9' by {
            if i < upper.len() {
                assert(text[i] == upper[i]);
            }
        }
    }
}

/// A duration is its number of milliseconds with the unit behind it.
pub proof fn law_durations_are_in_milliseconds(millis: u64)
    ensures
        ({
            let text = millis_text(millis);
            let n = text.len() - 3;
            &&& n > 0
            &&& digits_only(text.take(n))
            &&& number_in(text.take(n)) == millis
            &&& text.skip(n) == " ms"@
        }),
{
    reveal_strlit(" ms");
    law_decimals_stand_for_the_number(millis as nat);
    let text = millis_text(millis);
    let n = text.len() - 3;
    assert(text.take(n) =~= decimal_text(millis as nat));
    assert(text.skip(n) =~= " ms"@);
}

/// Whether `tenths` is the number of tenths nearest to `size` units of `unit` bytes, and the
/// even one of two that are as near.
pub open spec fn is_nearest(tenths: int, size: int, unit: int) -> bool {
    &&& -unit <= 2 * (tenths * unit - 10 * size) <= unit
    &&& (2 * (tenths * unit - 10 * size) == unit || 2 * (tenths * unit - 10 * size) == -unit)
        ==> tenths % 2 == 0
}

proof fn lemma_nearest(size: nat, unit: nat)
    requires
        unit > 0,
    ensures
        is_nearest(nearest_even(size * 10, unit) as int, size as int, unit as int),
{
    let n = size * 10;
    let q = n / unit;
    let r = n % unit;
    assert(n == q * unit + r && 0 <= r < unit) by (nonlinear_arith)
        requires
            unit > 0,
            q == n / unit,
            r == n % unit,
    ;
    let tenths = nearest_even(n, unit);
    assert((q + 1) * unit == q * unit + unit) by (nonlinear_arith);
    if tenths == q {
        assert(tenths * unit - 10 * size == -(r as int));
    } else {
        assert(tenths == q + 1);
        assert(tenths * unit - 10 * size == unit - r);
    }
}

/// A size below one kilobyte is its number of bytes. One below a megabyte is in kilobytes and
/// one from there on in megabytes, to the nearest tenth. A size with more than 53 binary
/// digits is taken in 53 digits before that.
pub proof fn law_sizes_are_nearest(size: u64) -> (tenths: nat)
    ensures
        size < 1024 ==> size_text(size) == decimal_text(size as nat) + " B"@,
        1024 <= size < 1048576 ==> {
            &&& is_nearest(tenths as int, size as int, 1024)
            &&& size_text(size) == decimal_text(tenths / 10) + "."@ + decimal_text(tenths % 10)
                + " KB"@
        },
        1048576 <= size ==> {
            &&& is_nearest(tenths as int, in_53_digits(size as nat) as int, 1048576)
            &&& size < 0x20_0000_0000_0000 ==> in_53_digits(size as nat) == size
            &&& size_text(size) == decimal_text(tenths / 10) + "."@ + decimal_text(tenths % 10)
                + " MB"@
        },
{
    if size < 0x20_0000_0000_0000 {
        law_sizes_are_exact(size);
    }
    lemma_nearest(size as nat, 1024);
    lemma_nearest(in_53_digits(size as nat), 1048576);
    if size >= 1048576 {
        nearest_even(in_53_digits(size as nat) * 10, 1048576)
    } else {
        nearest_even(size as nat * 10, 1024)
    }
}

proof fn lemma_spacing(n: nat)
    ensures
        spacing(n) > 0,
        n < 0x20_0000_0000_0000 * spacing(n),
        n >= 0x20_0000_0000_0000 ==> 0x10_0000_0000_0000 * spacing(n) <= n,
    decreases n,
{
    if n >= 0x20_0000_0000_0000 {
        lemma_spacing(n / 2);
    }
}

/// A number in 53 binary digits is the nearest of the numbers that have 53 digits and then
/// zeros alone: it is a multiple of their distance, which is the least that leaves 53 digits,
/// and at most half of that away.
pub proof fn law_53_digits_are_nearest(n: nat)
    ensures
        spacing(n) > 0,
        n < 0x20_0000_0000_0000 * spacing(n),
        n >= 0x20_0000_0000_0000 ==> 0x10_0000_0000_0000 * spacing(n) <= n,
        in_53_digits(n) % spacing(n) == 0,
        -spacing(n) <= 2 * (in_53_digits(n) - n) <= spacing(n),
{
    lemma_spacing(n);
    let d = spacing(n);
    let q = n / d;
    let r = n % d;
    let m = nearest_even(n, d);
    assert(n == q * d + r && 0 <= r < d) by (nonlinear_arith)
        requires
            d > 0,
            q == n / d,
            r == n % d,
    ;
    assert((q + 1) * d == q * d + d) by (nonlinear_arith);
    assert((m * d) % d == 0) by (nonlinear_arith)
        requires
            d > 0,
    ;
}

proof fn lemma_two_digits(n: int)
    requires
        0 <= n < 100,
    ensures
        two_digits(n).len() == 2,
        digits_only(two_digits(n)),
        number_in(two_digits(n)) == n,
{
    let text = two_digits(n);
    let first = text.drop_last();
    assert(text.last() == digit_char((n % 10) as nat));
    assert(first.len() == 1);
    assert(first.last() == digit_char((n / 10) as nat));
    assert(number_in(first.drop_last()) == 0);
    assert(number_in(first) == n / 10);
}

proof fn lemma_parts_of_a_day(s: int)
    requires
        0 <= s < 86400,
    ensures
        0 <= s / 3600 < 24,
        0 <= s / 60 % 60 < 60,
        0 <= s % 60 < 60,
        s / 3600 * 3600 + s / 60 % 60 * 60 + s % 60 == s,
{
    let q = s / 60;
    assert(s == 60 * q + s % 60);
    assert(q == 60 * (q / 60) + q % 60);
    assert(q / 60 == s / 3600);
}

/// The time of day is written as hours, minutes and seconds in two digits each, with colons
/// between them, and they are those of the second that the time lies in.
pub proof fn law_clocks_show_the_second(millis: int)
    ensures
        ({
            let text = clock_text(millis);
            let hours = number_in(text.subrange(0, 2));
            let minutes = number_in(text.subrange(3, 5));
            let seconds = number_in(text.subrange(6, 8));
            &&& text.len() == 8
            &&& text[2] == ':'
            &&& text[5] == ':'
            &&& 0 <= hours < 24
            &&& 0 <= minutes < 60
            &&& 0 <= seconds < 60
            &&& hours * 3600 + minutes * 60 + seconds == (millis / 1000) % 86400
        }),
{
    let s = (millis / 1000) % 86400;
    let text = clock_text(millis);
    lemma_parts_of_a_day(s);
    lemma_two_digits(s / 3600);
    lemma_two_digits(s / 60 % 60);
    lemma_two_digits(s % 60);
    assert(text.subrange(0, 2) =~= two_digits(s / 3600));
    assert(text.subrange(3, 5) =~= two_digits(s / 60 % 60));
    assert(text.subrange(6, 8) =~= two_digits(s % 60));
}

/// A moment is written as its month and its day in two digits each, and the time of day.
pub proof fn law_moments_show_day_and_time(month: int, day: int, millis: int)
    requires
        1 <= month <= 12,
        1 <= day <= 31,
    ensures
        ({
            let text = moment_text(month, day, millis);
            &&& text.len() == 14
            &&& number_in(text.subrange(0, 2)) == month
            &&& text[2] == '-'
            &&& number_in(text.subrange(3, 5)) == day
            &&& text[5] == ' '
            &&& text.skip(6) == clock_text(millis)
        }),
{
    let text = moment_text(month, day, millis);
    law_clocks_show_the_second(millis);
    lemma_two_digits(month);
    lemma_two_digits(day);
    assert(text.subrange(0, 2) =~= two_digits(month));
    assert(text.subrange(3, 5) =~= two_digits(day));
    assert(text.skip(6) =~= clock_text(millis));
}

} // verus!
