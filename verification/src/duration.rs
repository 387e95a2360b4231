//! Compact human-readable durations, as shown by `/uptime` and the dashboard.

use vstd::prelude::*;

use crate::text::{
    decimal, decimal_pad2, digits_value, lemma_decimal_pad2_reads_back, lemma_decimal_reads_back, push_decimal,
    push_decimal_pad2,
};

verus! {

/// Seconds in a day, an hour and a minute.
pub const SECONDS_PER_DAY: u64 = 86_400;
pub const SECONDS_PER_HOUR: u64 = 3_600;
pub const SECONDS_PER_MINUTE: u64 = 60;

/// The compact notation of a whole number of seconds: the largest non-zero
/// unit among days, hours and minutes leads unpadded, and every smaller unit
/// follows padded to two digits (`1d 01h 01m 01s`, `1h 01m 01s`, `1m 01s`, `59s`).
pub open spec fn duration_text(total: nat) -> Seq<char> {
    let days = total / 86_400;
    let hours = (total % 86_400) / 3_600;
    let minutes = (total % 3_600) / 60;
    let seconds = total % 60;
    if days > 0 {
        decimal(days) + seq!['d', ' '] + decimal_pad2(hours) + seq!['h', ' '] + decimal_pad2(
            minutes,
        ) + seq!['m', ' '] + decimal_pad2(seconds) + seq!['s']
    } else if hours > 0 {
        decimal(hours) + seq!['h', ' '] + decimal_pad2(minutes) + seq!['m', ' '] + decimal_pad2(
            seconds,
        ) + seq!['s']
    } else if minutes > 0 {
        decimal(minutes) + seq!['m', ' '] + decimal_pad2(seconds) + seq!['s']
    } else {
        decimal(seconds) + seq!['s']
    }
}

/// Formats a number of elapsed seconds compactly.
pub fn format_duration(total_seconds: u64) -> (text: String)
    ensures
        text@ == duration_text(total_seconds as nat),
{
    let days = total_seconds / SECONDS_PER_DAY;
    let hours = (total_seconds % SECONDS_PER_DAY) / SECONDS_PER_HOUR;
    let minutes = (total_seconds % SECONDS_PER_HOUR) / SECONDS_PER_MINUTE;
    let seconds = total_seconds % SECONDS_PER_MINUTE;
    let mut text = String::new();
    if days > 0 {
        push_decimal(&mut text, days);
        text.push('d');
        text.push(' ');
        push_decimal_pad2(&mut text, hours);
        text.push('h');
        text.push(' ');
        push_decimal_pad2(&mut text, minutes);
        text.push('m');
        text.push(' ');
        push_decimal_pad2(&mut text, seconds);
        text.push('s');
    } else if hours > 0 {
        push_decimal(&mut text, hours);
        text.push('h');
        text.push(' ');
        push_decimal_pad2(&mut text, minutes);
        text.push('m');
        text.push(' ');
        push_decimal_pad2(&mut text, seconds);
        text.push('s');
    } else if minutes > 0 {
        push_decimal(&mut text, minutes);
        text.push('m');
        text.push(' ');
        push_decimal_pad2(&mut text, seconds);
        text.push('s');
    } else {
        push_decimal(&mut text, seconds);
        text.push('s');
    }
    assert(text@ =~= duration_text(total_seconds as nat));
    text
}

/// The notation of `days` days, `hours` hours, `minutes` minutes and
/// `seconds` seconds (each smaller unit below its limit): the leading unit is
/// the largest non-zero one, written unpadded, and each smaller unit follows
/// in order, padded to two digits, with its own letter.
pub proof fn lemma_duration_text_by_units(days: nat, hours: nat, minutes: nat, seconds: nat)
    requires
        hours < 24,
        minutes < 60,
        seconds < 60,
    ensures
        ({
            let total = days * 86_400 + hours * 3_600 + minutes * 60 + seconds;
            &&& days > 0 ==> duration_text(total) == decimal(days) + seq!['d', ' '] + decimal_pad2(hours) + seq![
                'h',
                ' ',
            ] + decimal_pad2(minutes) + seq!['m', ' '] + decimal_pad2(seconds) + seq!['s']
            &&& days == 0 && hours > 0 ==> duration_text(total) == decimal(hours) + seq!['h', ' '] + decimal_pad2(
                minutes,
            ) + seq!['m', ' '] + decimal_pad2(seconds) + seq!['s']
            &&& days == 0 && hours == 0 && minutes > 0 ==> duration_text(total) == decimal(minutes) + seq![
                'm',
                ' ',
            ] + decimal_pad2(seconds) + seq!['s']
            &&& days == 0 && hours == 0 && minutes == 0 ==> duration_text(total) == decimal(seconds) + seq!['s']
        }),
{
    let total = days * 86_400 + hours * 3_600 + minutes * 60 + seconds;
    let within_day = hours * 3_600 + minutes * 60 + seconds;
    assert(within_day < 86_400) by (nonlinear_arith)
        requires
            hours < 24,
            minutes < 60,
            seconds < 60,
            within_day == hours * 3_600 + minutes * 60 + seconds,
    ;
    assert(total / 86_400 == days && total % 86_400 == within_day) by (nonlinear_arith)
        requires
            total == days * 86_400 + within_day,
            0 <= within_day < 86_400,
    ;
    let within_hour = minutes * 60 + seconds;
    assert(within_hour < 3_600) by (nonlinear_arith)
        requires
            minutes < 60,
            seconds < 60,
            within_hour == minutes * 60 + seconds,
    ;
    assert(within_day / 3_600 == hours) by (nonlinear_arith)
        requires
            within_day == hours * 3_600 + within_hour,
            0 <= within_hour < 3_600,
    ;
    assert(total % 3_600 == within_hour) by (nonlinear_arith)
        requires
            total == (days * 24 + hours) * 3_600 + within_hour,
            0 <= within_hour < 3_600,
    ;
    assert(total == (days * 24 + hours) * 3_600 + within_hour) by (nonlinear_arith)
        requires
            total == days * 86_400 + hours * 3_600 + within_hour,
    ;
    assert(within_hour / 60 == minutes) by (nonlinear_arith)
        requires
            within_hour == minutes * 60 + seconds,
            0 <= seconds < 60,
    ;
    assert(total % 60 == seconds) by (nonlinear_arith)
        requires
            total == (days * 1_440 + hours * 60 + minutes) * 60 + seconds,
            0 <= seconds < 60,
    ;
    assert(total == (days * 1_440 + hours * 60 + minutes) * 60 + seconds) by (nonlinear_arith)
        requires
            total == days * 86_400 + hours * 3_600 + minutes * 60 + seconds,
    ;
}

/// Reading the notation of an uptime of at least an hour and under a day back
/// gives the uptime: it is a number, `h `, two digits below 60, `m `, two
/// digits below 60 and `s`, and hours, minutes and seconds add up to it.
pub proof fn lemma_hours_text_reads_back(total: nat)
    requires
        3_600 <= total < 86_400,
    ensures
        exists|h: Seq<char>, m: Seq<char>, s: Seq<char>|
            #![trigger digits_value(h), digits_value(m), digits_value(s)]
            {
                &&& duration_text(total) == h + seq!['h', ' '] + m + seq!['m', ' '] + s + seq!['s']
                &&& m.len() == 2 && s.len() == 2
                &&& digits_value(m) < 60 && digits_value(s) < 60
                &&& digits_value(h) * 3_600 + digits_value(m) * 60 + digits_value(s) == total
            },
{
    let hours = total / 3_600;
    let minutes = (total % 3_600) / 60;
    let seconds = total % 60;
    assert(hours < 24 && hours > 0 && minutes < 60 && seconds < 60);
    assert(total == hours * 3_600 + minutes * 60 + seconds) by (nonlinear_arith)
        requires
            hours == total / 3_600,
            minutes == (total % 3_600) / 60,
            seconds == total % 60,
    ;
    lemma_duration_text_by_units(0, hours, minutes, seconds);
    lemma_decimal_reads_back(hours);
    lemma_decimal_pad2_reads_back(minutes);
    lemma_decimal_pad2_reads_back(seconds);
    let h = decimal(hours);
    let m = decimal_pad2(minutes);
    let s = decimal_pad2(seconds);
    assert(0 * 86_400 + hours * 3_600 + minutes * 60 + seconds == total);
    assert(digits_value(h) * 3_600 + digits_value(m) * 60 + digits_value(s) == total);
}

} // verus!
