//! Jikan (unofficial MyAnimeList) API: random anime and manga.

use vstd::prelude::*;

use crate::text::{push_str};

verus! {

/// Service name under which Jikan requests are tracked.
pub const SERVICE_NAME: &'static str = "jikan";

/// Endpoint that returns a random anime.
pub const RANDOM_ANIME_URL: &'static str = "https://api.jikan.moe/v4/random/anime";

/// Endpoint that returns a random manga.
pub const RANDOM_MANGA_URL: &'static str = "https://api.jikan.moe/v4/random/manga";

/// Random anime payload returned by Jikan.
pub struct Anime {
    /// Short synopsis of the anime.
    pub synopsis: String,
    /// Anime title.
    pub title: String,
    /// Cover images returned by Jikan.
    pub images: Images,
}

/// Random manga payload returned by Jikan.
pub struct Manga {
    /// Short synopsis of the manga.
    pub synopsis: String,
    /// Manga title.
    pub title: String,
    /// Cover images returned by Jikan.
    pub images: Images,
}

/// Image metadata returned by Jikan.
pub struct Image {
    /// Direct image URL.
    pub image_url: String,
}

/// Image variants returned by Jikan.
pub struct Images {
    /// JPG image variant.
    pub jpg: Image,
}

/// Generic Jikan response wrapper.
pub struct Response<D> {
    /// Response payload.
    pub data: D,
}

/// The random-anime endpoint under `base`.
pub open spec fn random_anime_url_text(base: Seq<char>) -> Seq<char> {
    base + "/random/anime"@
}

/// The random-manga endpoint under `base`.
pub open spec fn random_manga_url_text(base: Seq<char>) -> Seq<char> {
    base + "/random/manga"@
}

/// Builds the random-anime endpoint under a specific Jikan base URL.
pub fn random_anime_url_from(base_url: &str) -> (url: String)
    ensures
        url@ == random_anime_url_text(base_url@),
{
    let mut url = String::new();
    push_str(&mut url, base_url);
    push_str(&mut url, "/random/anime");
    assert(url@ =~= random_anime_url_text(base_url@));
    url
}

/// Builds the random-manga endpoint under a specific Jikan base URL.
pub fn random_manga_url_from(base_url: &str) -> (url: String)
    ensures
        url@ == random_manga_url_text(base_url@),
{
    let mut url = String::new();
    push_str(&mut url, base_url);
    push_str(&mut url, "/random/manga");
    assert(url@ =~= random_manga_url_text(base_url@));
    url
}

} // verus!
