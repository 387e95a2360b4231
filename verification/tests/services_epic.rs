use seris::services::epic::{archive_url, endpoint_from, resolve_images, EpicImage, EpicImageMetadata};

#[test]
fn builds_archive_url() {
    assert_eq!(
        archive_url(
            "enhanced",
            "2026-04-09 01:13:59",
            "epic_1b_20260409011359",
            "abc123"
        ),
        "https://api.nasa.gov/EPIC/archive/enhanced/2026/04/09/png/epic_1b_20260409011359.png?api_key=abc123"
    );
}

#[test]
fn epic_image_short_date_uses_day_prefix() {
    let image = EpicImage {
        image: "epic".to_string(),
        caption: "Earth".to_string(),
        date: "2026-04-09 01:13:59".to_string(),
        url: "https://example.com".to_string(),
    };

    assert_eq!(image.short_date(), "2026-04-09");
}

#[test]
fn archive_url_fills_missing_date_parts() {
    assert_eq!(
        archive_url("natural", "2026", "img", "k"),
        "https://api.nasa.gov/EPIC/archive/natural/2026/00/00/png/img.png?api_key=k"
    );
    assert_eq!(
        archive_url("natural", "2026-04", "img", "k"),
        "https://api.nasa.gov/EPIC/archive/natural/2026/04/00/png/img.png?api_key=k"
    );
    assert_eq!(
        archive_url("natural", "", "img", "k"),
        "https://api.nasa.gov/EPIC/archive/natural//00/00/png/img.png?api_key=k"
    );
    assert_eq!(
        archive_url("natural", "  2026-04-09-xx  ", "img", "k"),
        "https://api.nasa.gov/EPIC/archive/natural/2026/04/09/png/img.png?api_key=k"
    );
}

#[test]
fn short_date_without_words_keeps_the_date() {
    let image = EpicImage {
        image: "epic".to_string(),
        caption: "Earth".to_string(),
        date: "   ".to_string(),
        url: "https://example.com".to_string(),
    };
    assert_eq!(image.short_date(), "   ");
}

#[test]
fn endpoint_lists_images_or_a_day() {
    assert_eq!(
        endpoint_from("http://127.0.0.1:9//", "natural", None),
        "http://127.0.0.1:9/api/natural/images"
    );
    assert_eq!(
        endpoint_from("https://api.nasa.gov/EPIC", "enhanced", Some("2026-04-09")),
        "https://api.nasa.gov/EPIC/api/enhanced/date/2026-04-09"
    );
}

#[test]
fn resolves_metadata_into_images() {
    let images = resolve_images(
        "natural",
        vec![EpicImageMetadata {
            image: "epic_1b_20260409011359".to_string(),
            caption: "Earth".to_string(),
            date: "2026-04-09 01:13:59".to_string(),
        }],
        "abc123",
    );
    assert_eq!(images.len(), 1);
    assert_eq!(images[0].image, "epic_1b_20260409011359");
    assert_eq!(images[0].caption, "Earth");
    assert_eq!(images[0].short_date(), "2026-04-09");
    assert_eq!(
        images[0].url,
        "https://api.nasa.gov/EPIC/archive/natural/2026/04/09/png/epic_1b_20260409011359.png?api_key=abc123"
    );
}
