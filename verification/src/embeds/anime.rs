//! The anime recommendation embed.

use vstd::prelude::*;

use super::{EmbedContent, RECOMMENDATION_COLOR};
use crate::services::jikan::Anime;

verus! {

/// Builds the anime recommendation embed: the title, the synopsis as
/// description, and the JPG cover as image.
pub fn basic(data: Anime) -> (embed: EmbedContent)
    ensures
        embed.title@ == data.title@,
        embed.description@ == data.synopsis@,
        embed.image matches Some(image) && image@ == data.images.jpg.image_url@,
        embed.url is None,
        embed.footer is None,
        embed.fields@.len() == 0,
        embed.color == RECOMMENDATION_COLOR,
{
    EmbedContent {
        title: data.title,
        description: data.synopsis,
        url: None,
        image: Some(data.images.jpg.image_url),
        footer: None,
        fields: Vec::new(),
        color: RECOMMENDATION_COLOR,
    }
}

} // verus!
