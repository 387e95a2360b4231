use seris::embeds::{anime, epic, manga, nasa, EPIC_COLOR, RECOMMENDATION_COLOR};
use seris::services::epic::EpicImage;
use seris::services::jikan::{Anime, Image, Images, Manga};
use seris::services::nasa::AstronomyPictureDay;

#[test]
fn anime_basic_sets_expected_fields() {
    let embed = anime::basic(Anime {
        title: "Title".to_string(),
        synopsis: "Synopsis".to_string(),
        images: Images {
            jpg: Image {
                image_url: "https://example.com/anime.jpg".to_string(),
            },
        },
    });

    assert_eq!(embed.title, "Title");
    assert_eq!(embed.description, "Synopsis");
    assert_eq!(embed.image.as_deref(), Some("https://example.com/anime.jpg"));
    assert_eq!(embed.color, RECOMMENDATION_COLOR);
}

#[test]
fn manga_basic_sets_expected_fields() {
    let embed = manga::basic(Manga {
        title: "Title".to_string(),
        synopsis: "Synopsis".to_string(),
        images: Images {
            jpg: Image {
                image_url: "https://example.com/manga.jpg".to_string(),
            },
        },
    });

    assert_eq!(embed.title, "Title");
    assert_eq!(embed.description, "Synopsis");
    assert_eq!(embed.image.as_deref(), Some("https://example.com/manga.jpg"));
}

#[test]
fn epic_sets_expected_fields() {
    let embed = epic::epic(
        &EpicImage {
            image: "epic_1b_20260409011359".to_string(),
            caption: "Earth".to_string(),
            date: "2026-04-09 01:13:59".to_string(),
            url: "https://example.com/epic.png".to_string(),
        },
        0,
        3,
        "natural",
    );

    assert_eq!(embed.title, "EPIC natural");
    assert_eq!(embed.description, "Earth");
    assert_eq!(embed.image.as_deref(), Some("https://example.com/epic.png"));
    assert_eq!(embed.url.as_deref(), Some("https://example.com/epic.png"));
    assert_eq!(
        embed.footer.as_deref(),
        Some("Página 1/3 • 2026-04-09 • epic_1b_20260409011359")
    );
    assert_eq!(embed.color, EPIC_COLOR);
}

#[test]
fn apod_sets_expected_fields() {
    let embed = nasa::apod(&AstronomyPictureDay {
        title: "APOD".to_string(),
        explanation: "Space".to_string(),
        media_type: "image".to_string(),
        url: "https://example.com/apod.jpg".to_string(),
        hdurl: Some("https://example.com/apod.jpg".to_string()),
    });

    assert_eq!(embed.title, "APOD");
    assert_eq!(embed.description, "Space");
    assert_eq!(embed.image.as_deref(), Some("https://example.com/apod.jpg"));
}

#[test]
fn apod_links_video_media() {
    let embed = nasa::apod(&AstronomyPictureDay {
        title: "APOD".to_string(),
        explanation: "Space".to_string(),
        media_type: "video".to_string(),
        url: "https://example.com/apod.mp4".to_string(),
        hdurl: None,
    });

    assert_eq!(embed.url.as_deref(), Some("https://example.com/apod.mp4"));
    assert_eq!(embed.fields[0].name, "Video");
    assert_eq!(embed.fields[0].value, "[Abrir vídeo](https://example.com/apod.mp4)");
    assert!(!embed.fields[0].inline);
    assert!(embed.image.is_none());
}

#[test]
fn apod_prefers_the_high_resolution_image() {
    let embed = nasa::apod(&AstronomyPictureDay {
        title: "APOD".to_string(),
        explanation: "Space".to_string(),
        media_type: "image".to_string(),
        url: "https://example.com/small.jpg".to_string(),
        hdurl: Some("https://example.com/large.jpg".to_string()),
    });
    assert_eq!(embed.image.as_deref(), Some("https://example.com/large.jpg"));

    let plain = nasa::apod(&AstronomyPictureDay {
        title: "APOD".to_string(),
        explanation: "Space".to_string(),
        media_type: "image".to_string(),
        url: "https://example.com/small.jpg".to_string(),
        hdurl: None,
    });
    assert_eq!(plain.image.as_deref(), Some("https://example.com/small.jpg"));
    assert!(plain.fields.is_empty());
}
