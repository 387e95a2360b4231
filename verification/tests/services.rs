use seris::calendar::CalendarDate;
use seris::services::jikan::{random_anime_url_from, random_manga_url_from};
use seris::services::nasa::{ApodCache, AstronomyPictureDay};

fn apod(title: &str) -> AstronomyPictureDay {
    AstronomyPictureDay {
        title: title.to_string(),
        explanation: "Space".to_string(),
        media_type: "image".to_string(),
        url: "https://example.com/apod.jpg".to_string(),
        hdurl: None,
    }
}

#[test]
fn jikan_urls_append_the_route() {
    assert_eq!(random_anime_url_from("http://127.0.0.1:1"), "http://127.0.0.1:1/random/anime");
    assert_eq!(random_manga_url_from("https://api.jikan.moe/v4"), "https://api.jikan.moe/v4/random/manga");
}

#[test]
fn apod_cache_keeps_one_day() {
    let today = CalendarDate { year: 2026, month: 4, day: 9 };
    let tomorrow = CalendarDate { year: 2026, month: 4, day: 10 };
    let mut cache = ApodCache::new();
    assert!(cache.lookup(today).is_none());
    cache.store(today, apod("Cached"));
    assert_eq!(cache.lookup(today).map(|a| a.title), Some("Cached".to_string()));
    assert!(cache.lookup(tomorrow).is_none());
    cache.store(tomorrow, apod("New"));
    assert!(cache.lookup(today).is_none());
    assert!(!apod("x").is_video());
}
