//! The Astronomy Picture of the Day embed.

use vstd::prelude::*;

use super::{EmbedContent, EmbedField, RECOMMENDATION_COLOR};
use crate::services::nasa::AstronomyPictureDay;
use crate::text::{owned, push_str};

verus! {

/// The text of the field that links a video APOD.
pub open spec fn video_link_text(url: Seq<char>) -> Seq<char> {
    "[Abrir vídeo]("@ + url + ")"@
}

/// Builds the APOD embed: title and explanation; a video is linked from the
/// title and from a `Video` field, any other media is shown as the image.
pub fn apod(data: &AstronomyPictureDay) -> (embed: EmbedContent)
    ensures
        embed.title@ == data.title@,
        embed.description@ == data.explanation@,
        embed.color == RECOMMENDATION_COLOR,
        embed.footer is None,
        data.media_type@ == "video"@ ==> {
            &&& embed.url matches Some(url) && url@ == data.url@
            &&& embed.image is None
            &&& embed.fields@.len() == 1
            &&& embed.fields@[0].name@ == "Video"@
            &&& embed.fields@[0].value@ == video_link_text(data.url@)
            &&& !embed.fields@[0].inline
        },
        data.media_type@ != "video"@ ==> {
            &&& embed.url is None
            &&& embed.image matches Some(image) && image@ == (match data.hdurl {
                Some(h) => h@,
                None => data.url@,
            })
            &&& embed.fields@.len() == 0
        },
{
    if data.is_video() {
        let mut value = String::new();
        push_str(&mut value, "[Abrir vídeo](");
        push_str(&mut value, data.url.as_str());
        push_str(&mut value, ")");
        assert(value@ =~= video_link_text(data.url@));
        let mut fields = Vec::new();
        fields.push(EmbedField { name: owned("Video"), value, inline: false });
        EmbedContent {
            title: data.title.clone(),
            description: data.explanation.clone(),
            url: Some(data.url.clone()),
            image: None,
            footer: None,
            fields,
            color: RECOMMENDATION_COLOR,
        }
    } else {
        EmbedContent {
            title: data.title.clone(),
            description: data.explanation.clone(),
            url: None,
            image: Some(owned(data.image_url())),
            footer: None,
            fields: Vec::new(),
            color: RECOMMENDATION_COLOR,
        }
    }
}

} // verus!
