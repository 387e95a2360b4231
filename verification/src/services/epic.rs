//! NASA EPIC (Earth Polychromatic Imaging Camera) requests and image records.

use vstd::prelude::*;
use vstd::string::StrSliceExecFns;

use crate::text::{
    chars_of, chars_range, first_word_or_all, next_word, push_range, push_str, push_trimmed_end,
    segment_end, split_on, trim_end_char, opt_str_text,
};

verus! {

/// Base URL of the EPIC API.
pub const API_URL: &'static str = "https://api.nasa.gov/EPIC";

/// Service name under which EPIC requests are tracked.
pub const SERVICE_NAME: &'static str = "nasa-epic";

/// Image metadata as the EPIC API lists it.
pub struct EpicImageMetadata {
    /// Image identifier.
    pub image: String,
    /// Image caption.
    pub caption: String,
    /// Timestamp string returned by the API.
    pub date: String,
}

/// Resolved EPIC image used by the bot.
pub struct EpicImage {
    /// Image identifier.
    pub image: String,
    /// Image caption.
    pub caption: String,
    /// Timestamp string returned by the API.
    pub date: String,
    /// Resolved archive image URL.
    pub url: String,
}

impl Clone for EpicImage {
    fn clone(&self) -> (copy: Self)
        ensures
            copy.image@ == self.image@,
            copy.caption@ == self.caption@,
            copy.date@ == self.date@,
            copy.url@ == self.url@,
    {
        EpicImage {
            image: self.image.clone(),
            caption: self.caption.clone(),
            date: self.date.clone(),
            url: self.url.clone(),
        }
    }
}

impl EpicImage {
    /// Returns the date portion used for display: the first word of the
    /// timestamp, or the whole timestamp when it has no word.
    pub fn short_date(&self) -> (day: &str)
        ensures
            day@ == first_word_or_all(self.date@),
    {
        let v = chars_of(self.date.as_str());
        assert(v@.skip(0) =~= v@);
        match next_word(&v, 0) {
            Some((start, end)) => self.date.as_str().substring_char(start, end),
            None => self.date.as_str(),
        }
    }
}

/// The year, month and day pieces of a date: the first three `-`-separated
/// pieces of its first word, with `"00"` for a missing month or day.
pub open spec fn date_parts(date: Seq<char>) -> (Seq<char>, Seq<char>, Seq<char>) {
    let parts = split_on(first_word_or_all(date), '-');
    (
        parts[0],
        if parts.len() > 1 { parts[1] } else { "00"@ },
        if parts.len() > 2 { parts[2] } else { "00"@ },
    )
}

/// The archive URL of an EPIC image.
pub open spec fn archive_url_text(kind: Seq<char>, date: Seq<char>, image: Seq<char>, api_key: Seq<char>) -> Seq<char> {
    let (year, month, day) = date_parts(date);
    "https://api.nasa.gov/EPIC/archive/"@ + kind + "/"@ + year + "/"@ + month + "/"@ + day + "/png/"@
        + image + ".png?api_key="@ + api_key
}

/// Builds the archive URL of the image `image` of kind `kind` taken at `date`.
pub fn archive_url(kind: &str, date: &str, image: &str, api_key: &str) -> (url: String)
    ensures
        url@ == archive_url_text(kind@, date@, image@, api_key@),
{
    let date_chars = chars_of(date);
    assert(date_chars@.skip(0) =~= date_chars@);
    let day_text = match next_word(&date_chars, 0) {
        Some((start, end)) => chars_range(&date_chars, start, end),
        None => chars_range(&date_chars, 0, date_chars.len()),
    };
    assert(day_text@ == first_word_or_all(date@));
    assert(day_text@.skip(0) =~= day_text@);
    let ghost parts = split_on(day_text@, '-');
    let mut url = String::new();
    push_str(&mut url, "https://api.nasa.gov/EPIC/archive/");
    push_str(&mut url, kind);
    push_str(&mut url, "/");
    let year_end = segment_end(&day_text, 0, '-');
    push_range(&mut url, &day_text, 0, year_end);
    push_str(&mut url, "/");
    if year_end < day_text.len() {
        let month_end = segment_end(&day_text, year_end + 1, '-');
        push_range(&mut url, &day_text, year_end + 1, month_end);
        push_str(&mut url, "/");
        if month_end < day_text.len() {
            let day_end = segment_end(&day_text, month_end + 1, '-');
            push_range(&mut url, &day_text, month_end + 1, day_end);
        } else {
            push_str(&mut url, "00");
        }
    } else {
        push_str(&mut url, "00");
        push_str(&mut url, "/");
        push_str(&mut url, "00");
    }
    push_str(&mut url, "/png/");
    push_str(&mut url, image);
    push_str(&mut url, ".png?api_key=");
    push_str(&mut url, api_key);
    assert(url@ =~= archive_url_text(kind@, date@, image@, api_key@));
    url
}

} // verus!

verus! {

/// The URL that lists the EPIC images of `kind`, for `date` when one is given.
pub open spec fn endpoint_text(base: Seq<char>, kind: Seq<char>, date: Option<Seq<char>>) -> Seq<char> {
    let base = trim_end_char(base, '/');
    match date {
        Some(date) => base + "/api/"@ + kind + "/date/"@ + date,
        None => base + "/api/"@ + kind + "/images"@,
    }
}

/// Builds the listing URL under `base_url` (any trailing `/` of it dropped).
pub fn endpoint_from(base_url: &str, kind: &str, date: Option<&str>) -> (url: String)
    ensures
        url@ == endpoint_text(base_url@, kind@, opt_str_text(date)),
{
    let mut url = String::new();
    push_trimmed_end(&mut url, base_url, '/');
    push_str(&mut url, "/api/");
    push_str(&mut url, kind);
    match date {
        Some(date) => {
            push_str(&mut url, "/date/");
            push_str(&mut url, date);
        },
        None => {
            push_str(&mut url, "/images");
        },
    }
    assert(url@ =~= endpoint_text(base_url@, kind@, opt_str_text(date)));
    url
}

/// Whether `image` is the resolved form of `meta`: the same identifier,
/// caption and date, with the archive URL built from them.
pub open spec fn resolves_to(meta: EpicImageMetadata, kind: Seq<char>, api_key: Seq<char>, image: EpicImage) -> bool {
    &&& image.image@ == meta.image@
    &&& image.caption@ == meta.caption@
    &&& image.date@ == meta.date@
    &&& image.url@ == archive_url_text(kind, meta.date@, meta.image@, api_key)
}

/// Turns the listed metadata into images with their archive URLs, in order.
pub fn resolve_images(kind: &str, metadata: Vec<EpicImageMetadata>, api_key: &str) -> (images: Vec<EpicImage>)
    ensures
        images.len() == metadata.len(),
        forall|i: int| 0 <= i < metadata.len() ==> resolves_to(metadata[i], kind@, api_key@, #[trigger] images[i]),
{
    let mut images: Vec<EpicImage> = Vec::new();
    let mut i: usize = 0;
    while i < metadata.len()
        invariant
            i <= metadata.len(),
            images.len() == i,
            forall|k: int| 0 <= k < i ==> resolves_to(metadata[k], kind@, api_key@, #[trigger] images[k]),
        decreases metadata.len() - i,
    {
        let item = &metadata[i];
        let url = archive_url(kind, item.date.as_str(), item.image.as_str(), api_key);
        images.push(EpicImage {
            image: item.image.clone(),
            caption: item.caption.clone(),
            date: item.date.clone(),
            url,
        });
        i = i + 1;
    }
    images
}

} // verus!
