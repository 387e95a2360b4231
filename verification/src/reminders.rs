//! Scheduling of the daily time-tracking reminders sent to the application owner.

use vstd::prelude::*;

use crate::calendar::{following_day, next_day, CalendarDate};
use crate::text::{decimal_pad2, push_decimal_pad2, push_str};

verus! {

/// A local wall-clock date and time, as `chrono::NaiveDateTime` holds it.
#[derive(Clone, Copy, Debug, PartialEq, Eq, Structural)]
pub struct LocalDateTime {
    /// The calendar date.
    pub date: CalendarDate,
    /// Hour of the day, from 0 to 23.
    pub hour: u32,
    /// Minute of the hour, from 0 to 59.
    pub minute: u32,
    /// Second of the minute, from 0 to 59.
    pub second: u32,
    /// Fraction of the second in nanoseconds (above 999 999 999 during a leap second).
    pub nanosecond: u32,
}

/// Whether the time of day is one that `chrono::NaiveTime` holds.
pub open spec fn is_valid_time(t: LocalDateTime) -> bool {
    t.hour < 24 && t.minute < 60 && t.second < 60 && t.nanosecond < 2_000_000_000
}

/// Seconds since midnight of `t`.
pub open spec fn seconds_of_day(t: LocalDateTime) -> int {
    t.hour * 3600 + t.minute * 60 + t.second
}

/// The reminder slots of a day, in seconds since midnight: 12:00, 13:05 and 17:53.
pub open spec fn reminder_slot(i: int) -> int {
    if i == 0 {
        43_200int
    } else if i == 1 {
        47_100int
    } else {
        64_380int
    }
}

/// The local date and time `date` at `hour:minute:00`.
pub open spec fn at(date: CalendarDate, hour: u32, minute: u32) -> LocalDateTime {
    LocalDateTime { date, hour, minute, second: 0, nanosecond: 0 }
}

/// The first reminder strictly after `now`: today's first slot later than
/// the current time, or tomorrow's first slot once today's are past.
pub open spec fn next_reminder(now: LocalDateTime) -> LocalDateTime {
    let t = seconds_of_day(now);
    if t < reminder_slot(0) {
        at(now.date, 12, 0)
    } else if t < reminder_slot(1) {
        at(now.date, 13, 5)
    } else if t < reminder_slot(2) {
        at(now.date, 17, 53)
    } else {
        at(next_day(now.date).unwrap(), 12, 0)
    }
}

/// Computes the next reminder after `now` in local wall-clock time.
pub fn next_reminder_after_naive(now: LocalDateTime) -> (next: LocalDateTime)
    requires
        is_valid_time(now),
        seconds_of_day(now) >= reminder_slot(2) ==> next_day(now.date) is Some,
    ensures
        next == next_reminder(now),
{
    let t: u32 = now.hour * 3600 + now.minute * 60 + now.second;
    if t < 12 * 3600 {
        LocalDateTime { date: now.date, hour: 12, minute: 0, second: 0, nanosecond: 0 }
    } else if t < 13 * 3600 + 5 * 60 {
        LocalDateTime { date: now.date, hour: 13, minute: 5, second: 0, nanosecond: 0 }
    } else if t < 17 * 3600 + 53 * 60 {
        LocalDateTime { date: now.date, hour: 17, minute: 53, second: 0, nanosecond: 0 }
    } else {
        let tomorrow = match following_day(&now.date) {
            Some(day) => day,
            None => now.date,
        };
        LocalDateTime { date: tomorrow, hour: 12, minute: 0, second: 0, nanosecond: 0 }
    }
}

/// The GIFs that accompany a reminder, chosen by the hour.
pub open spec fn reminder_gif_text(hour: nat) -> Seq<char> {
    if hour % 3 == 0 {
        "https://media.tenor.com/KDzt7A8t8WQAAAAC/anime-girl.gif"@
    } else if hour % 3 == 1 {
        "https://media.tenor.com/6kJd8PmdJxQAAAAC/anime-kawaii.gif"@
    } else {
        "https://media.tenor.com/2roX3uxz_68AAAAC/anime-cute.gif"@
    }
}

/// Picks the GIF for a reminder sent at `hour`.
pub fn reminder_gif(hour: u32) -> (gif: &'static str)
    ensures
        gif@ == reminder_gif_text(hour as nat),
{
    let i = hour % 3;
    if i == 0 {
        "https://media.tenor.com/KDzt7A8t8WQAAAAC/anime-girl.gif"
    } else if i == 1 {
        "https://media.tenor.com/6kJd8PmdJxQAAAAC/anime-kawaii.gif"
    } else {
        "https://media.tenor.com/2roX3uxz_68AAAAC/anime-cute.gif"
    }
}

/// The direct message sent at `hour:minute`.
pub open spec fn reminder_message_text(hour: nat, minute: nat) -> Seq<char> {
    "Onii-chan, chegou a horinha de marcar o pontinho das "@ + decimal_pad2(hour) + ":"@
        + decimal_pad2(minute)
        + " kawaii~\nNao esquece, ta bom? Eu vou ficar felizinha quando voce marcar certinho.\n"@
        + reminder_gif_text(hour)
}

/// Builds the reminder message for a reminder scheduled at `hour:minute`.
pub fn reminder_message(hour: u32, minute: u32) -> (message: String)
    ensures
        message@ == reminder_message_text(hour as nat, minute as nat),
{
    let mut message = String::new();
    push_str(&mut message, "Onii-chan, chegou a horinha de marcar o pontinho das ");
    push_decimal_pad2(&mut message, hour as u64);
    push_str(&mut message, ":");
    push_decimal_pad2(&mut message, minute as u64);
    push_str(
        &mut message,
        " kawaii~\nNao esquece, ta bom? Eu vou ficar felizinha quando voce marcar certinho.\n",
    );
    push_str(&mut message, reminder_gif(hour));
    assert(message@ =~= reminder_message_text(hour as nat, minute as nat));
    message
}

} // verus!

verus! {

/// The next reminder is the first reminder slot strictly after `now`: a later
/// slot of the same day with no slot in between, or, once all of today's
/// slots are past, the first slot of the next day.
pub proof fn lemma_next_reminder_is_first_later_slot(now: LocalDateTime)
    requires
        is_valid_time(now),
        seconds_of_day(now) >= reminder_slot(2) ==> next_day(now.date) is Some,
    ensures
        ({
            let next = next_reminder(now);
            &&& next.second == 0 && next.nanosecond == 0
            &&& exists|i: int| 0 <= i < 3 && seconds_of_day(next) == reminder_slot(i)
            &&& (next.date == now.date && seconds_of_day(next) > seconds_of_day(now) && forall|i: int|
                0 <= i < 3 && reminder_slot(i) > seconds_of_day(now) ==> reminder_slot(i) >= seconds_of_day(next))
                || (next_day(now.date) == Some(next.date) && seconds_of_day(next) == reminder_slot(0) && forall|i: int|
                0 <= i < 3 ==> reminder_slot(i) <= seconds_of_day(now))
        }),
{
    let next = next_reminder(now);
    let t = seconds_of_day(now);
    if t < reminder_slot(0) {
        assert(seconds_of_day(next) == reminder_slot(0));
    } else if t < reminder_slot(1) {
        assert(seconds_of_day(next) == reminder_slot(1));
    } else if t < reminder_slot(2) {
        assert(seconds_of_day(next) == reminder_slot(2));
    } else {
        assert(seconds_of_day(next) == reminder_slot(0));
    }
}

} // verus!
