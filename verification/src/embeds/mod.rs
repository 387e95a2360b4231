//! What the bot's Discord embeds show.
//!
//! Each builder describes an embed as plain values; the Discord client turns
//! an [`EmbedContent`] into a message embed when it sends it.

use vstd::prelude::*;

pub mod anime;
pub mod epic;
pub mod manga;
pub mod nasa;

verus! {

/// A named field of an embed.
pub struct EmbedField {
    /// Field name.
    pub name: String,
    /// Field text.
    pub value: String,
    /// Whether the field is shown inline.
    pub inline: bool,
}

/// The content of a Discord embed.
pub struct EmbedContent {
    /// Embed title.
    pub title: String,
    /// Embed description.
    pub description: String,
    /// Link of the title, if any.
    pub url: Option<String>,
    /// Large image shown in the embed, if any.
    pub image: Option<String>,
    /// Footer text, if any.
    pub footer: Option<String>,
    /// Named fields, in order.
    pub fields: Vec<EmbedField>,
    /// Side color as red, green and blue.
    pub color: (u8, u8, u8),
}

/// The side color of recommendation and APOD embeds.
pub const RECOMMENDATION_COLOR: (u8, u8, u8) = (81, 78, 184);

/// The side color of EPIC embeds.
pub const EPIC_COLOR: (u8, u8, u8) = (47, 106, 217);

} // verus!
