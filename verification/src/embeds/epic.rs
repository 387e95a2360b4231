//! The EPIC gallery embed.

use vstd::prelude::*;

use super::{EmbedContent, EPIC_COLOR};
use crate::services::epic::EpicImage;
use crate::text::{decimal, first_word_or_all, push_decimal, push_str};

verus! {

/// The title of an EPIC embed.
pub open spec fn epic_title_text(kind: Seq<char>) -> Seq<char> {
    "EPIC "@ + kind
}

/// The footer of an EPIC embed: page number, page count, day and image identifier.
pub open spec fn epic_footer_text(page: nat, total: nat, image: EpicImage) -> Seq<char> {
    "Página "@ + decimal(page + 1) + "/"@ + decimal(total) + " • "@ + first_word_or_all(image.date@)
        + " • "@ + image.image@
}

/// Builds the embed of page `page` (counted from 0) of `total` in an EPIC gallery.
pub fn epic(image: &EpicImage, page: usize, total: usize, kind: &str) -> (embed: EmbedContent)
    requires
        page < usize::MAX,
    ensures
        embed.title@ == epic_title_text(kind@),
        embed.url matches Some(url) && url@ == image.url@,
        embed.description@ == image.caption@,
        embed.image matches Some(url) && url@ == image.url@,
        embed.footer matches Some(footer) && footer@ == epic_footer_text(page as nat, total as nat, *image),
        embed.fields@.len() == 0,
        embed.color == EPIC_COLOR,
{
    let mut title = String::new();
    push_str(&mut title, "EPIC ");
    push_str(&mut title, kind);
    assert(title@ =~= epic_title_text(kind@));
    let mut footer = String::new();
    push_str(&mut footer, "Página ");
    push_decimal(&mut footer, (page + 1) as u64);
    push_str(&mut footer, "/");
    push_decimal(&mut footer, total as u64);
    push_str(&mut footer, " • ");
    push_str(&mut footer, image.short_date());
    push_str(&mut footer, " • ");
    push_str(&mut footer, image.image.as_str());
    assert(footer@ =~= epic_footer_text(page as nat, total as nat, *image));
    EmbedContent {
        title,
        description: image.caption.clone(),
        url: Some(image.url.clone()),
        image: Some(image.url.clone()),
        footer: Some(footer),
        fields: Vec::new(),
        color: EPIC_COLOR,
    }
}

} // verus!
