//! NASA APOD (Astronomy Picture of the Day) records and the daily cache.

use vstd::prelude::*;

use crate::calendar::CalendarDate;
use crate::text::same_text;

verus! {

/// Endpoint of the APOD API.
pub const API_URL: &'static str = "https://api.nasa.gov/planetary/apod";

/// Service name under which APOD requests are tracked.
pub const SERVICE_NAME: &'static str = "nasa-apod";

/// NASA APOD response payload.
pub struct AstronomyPictureDay {
    /// APOD title.
    pub title: String,
    /// APOD explanation text.
    pub explanation: String,
    /// Kind of media: `image` or `video`.
    pub media_type: String,
    /// URL of the media.
    pub url: String,
    /// High-resolution image URL, when there is one.
    pub hdurl: Option<String>,
}

impl Clone for AstronomyPictureDay {
    fn clone(&self) -> (copy: Self)
        ensures
            copy == *self,
    {
        AstronomyPictureDay {
            title: self.title.clone(),
            explanation: self.explanation.clone(),
            media_type: self.media_type.clone(),
            url: self.url.clone(),
            hdurl: match &self.hdurl {
                Some(h) => Some(h.clone()),
                None => None,
            },
        }
    }
}

impl AstronomyPictureDay {
    /// Whether today's media is a video.
    pub fn is_video(&self) -> (video: bool)
        ensures
            video == (self.media_type@ == "video"@),
    {
        same_text(self.media_type.as_str(), "video")
    }

    /// The URL of the picture to show: the high-resolution one when present.
    pub fn image_url(&self) -> (url: &str)
        ensures
            url@ == match self.hdurl {
                Some(h) => h@,
                None => self.url@,
            },
    {
        match &self.hdurl {
            Some(h) => h.as_str(),
            None => self.url.as_str(),
        }
    }
}

} // verus!

verus! {

/// The APOD of one day, kept so that a day's picture is fetched only once.
pub struct ApodCache {
    entry: Option<(CalendarDate, AstronomyPictureDay)>,
}

impl View for ApodCache {
    type V = Option<(CalendarDate, AstronomyPictureDay)>;

    closed spec fn view(&self) -> Option<(CalendarDate, AstronomyPictureDay)> {
        self.entry
    }
}

/// What a cache holding `entry` answers for `today`: the kept picture when it
/// is today's, and nothing otherwise.
pub open spec fn cached_for(entry: Option<(CalendarDate, AstronomyPictureDay)>, today: CalendarDate) -> Option<AstronomyPictureDay> {
    match entry {
        Some((day, data)) => if day == today { Some(data) } else { None },
        None => None,
    }
}

impl ApodCache {
    /// Creates an empty cache.
    pub fn new() -> (cache: Self)
        ensures
            cache@ is None,
    {
        ApodCache { entry: None }
    }

    /// The kept picture, if it is `today`'s.
    pub fn lookup(&self, today: CalendarDate) -> (hit: Option<AstronomyPictureDay>)
        ensures
            hit == cached_for(self@, today),
    {
        match &self.entry {
            Some((day, data)) => if *day == today {
                Some(data.clone())
            } else {
                None
            },
            None => None,
        }
    }

    /// Keeps `data` as the picture of `today`, replacing any other.
    pub fn store(&mut self, today: CalendarDate, data: AstronomyPictureDay)
        ensures
            final(self)@ == Some((today, data)),
    {
        self.entry = Some((today, data));
    }
}

/// A stored picture is what the cache answers on the same day, and nothing
/// is answered on any other day.
pub proof fn lemma_store_then_lookup(today: CalendarDate, other: CalendarDate, data: AstronomyPictureDay)
    requires
        other != today,
    ensures
        cached_for(Some((today, data)), today) == Some(data),
        cached_for(Some((today, data)), other) is None,
{
}

} // verus!
