use seris::calendar::{following_day, CalendarDate};
use seris::reminders::{next_reminder_after_naive, reminder_gif, reminder_message, LocalDateTime};

fn datetime(year: i32, month: u32, day: u32, hour: u32, minute: u32) -> LocalDateTime {
    LocalDateTime {
        date: CalendarDate { year, month, day },
        hour,
        minute,
        second: 0,
        nanosecond: 0,
    }
}

#[test]
fn picks_first_remaining_time_today() {
    let now = datetime(2026, 4, 29, 11, 30);

    assert_eq!(next_reminder_after_naive(now), datetime(2026, 4, 29, 12, 0));
}

#[test]
fn skips_current_time_and_moves_to_next_slot() {
    let now = datetime(2026, 4, 29, 12, 0);

    assert_eq!(next_reminder_after_naive(now), datetime(2026, 4, 29, 13, 5));
}

#[test]
fn rolls_over_to_next_day_after_last_slot() {
    let now = datetime(2026, 4, 29, 18, 0);

    assert_eq!(next_reminder_after_naive(now), datetime(2026, 4, 30, 12, 0));
}

#[test]
fn rolls_over_months_years_and_leap_days() {
    assert_eq!(
        next_reminder_after_naive(datetime(2026, 12, 31, 23, 59)),
        datetime(2027, 1, 1, 12, 0)
    );
    assert_eq!(
        next_reminder_after_naive(datetime(2024, 2, 28, 17, 53)),
        datetime(2024, 2, 29, 12, 0)
    );
    assert_eq!(
        next_reminder_after_naive(datetime(2023, 2, 28, 20, 0)),
        datetime(2023, 3, 1, 12, 0)
    );
    assert_eq!(
        next_reminder_after_naive(datetime(2026, 4, 29, 17, 52)),
        datetime(2026, 4, 29, 17, 53)
    );
}

#[test]
fn following_day_follows_the_gregorian_calendar() {
    assert_eq!(
        following_day(&CalendarDate { year: 1900, month: 2, day: 28 }),
        Some(CalendarDate { year: 1900, month: 3, day: 1 })
    );
    assert_eq!(
        following_day(&CalendarDate { year: 2000, month: 2, day: 28 }),
        Some(CalendarDate { year: 2000, month: 2, day: 29 })
    );
    assert_eq!(following_day(&CalendarDate { year: 2026, month: 2, day: 30 }), None);
    assert_eq!(following_day(&CalendarDate { year: 262_142, month: 12, day: 31 }), None);
    assert_eq!(
        following_day(&CalendarDate { year: -262_143, month: 1, day: 1 }),
        Some(CalendarDate { year: -262_143, month: 1, day: 2 })
    );
}

#[test]
fn reminder_message_names_the_time_and_a_gif() {
    assert_eq!(reminder_gif(12), "https://media.tenor.com/KDzt7A8t8WQAAAAC/anime-girl.gif");
    assert_eq!(reminder_gif(13), "https://media.tenor.com/6kJd8PmdJxQAAAAC/anime-kawaii.gif");
    assert_eq!(reminder_gif(17), "https://media.tenor.com/2roX3uxz_68AAAAC/anime-cute.gif");
    assert_eq!(
        reminder_message(13, 5),
        "Onii-chan, chegou a horinha de marcar o pontinho das 13:05 kawaii~\nNao esquece, ta bom? Eu vou ficar felizinha quando voce marcar certinho.\nhttps://media.tenor.com/6kJd8PmdJxQAAAAC/anime-kawaii.gif"
    );
}
