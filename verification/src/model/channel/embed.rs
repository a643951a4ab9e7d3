//! Rich embeds of messages.

use vstd::prelude::*;
use crate::model::colour::Colour;
use crate::model::timestamp::Timestamp;

verus! {

/// A rich embed: a framed block of text, fields and media under a message.
#[derive(Clone, Debug, PartialEq, Eq)]
pub struct Embed {
    /// Who wrote the embed.
    pub author: Option<EmbedAuthor>,
    /// The colour of the embed's left edge.
    pub colour: Option<Colour>,
    /// The body text; the platform takes up to 4096 code points.
    pub description: Option<String>,
    /// The fields, in order; the platform takes up to 25.
    pub fields: Vec<EmbedField>,
    pub footer: Option<EmbedFooter>,
    pub image: Option<EmbedImage>,
    /// The sort of embed; `rich` for every embed that a client writes.
    pub kind: Option<String>,
    pub provider: Option<EmbedProvider>,
    pub thumbnail: Option<EmbedThumbnail>,
    pub timestamp: Option<Timestamp>,
    pub title: Option<String>,
    /// Where a click on the title leads.
    pub url: Option<String>,
    pub video: Option<EmbedVideo>,
}

/// The author line of an embed.
#[derive(Clone, Debug, PartialEq, Eq)]
pub struct EmbedAuthor {
    pub name: String,
    pub url: Option<String>,
    pub icon_url: Option<String>,
    pub proxy_icon_url: Option<String>,
}

/// One titled field of an embed.
#[derive(Clone, Debug, PartialEq, Eq)]
pub struct EmbedField {
    /// The field's title; the platform takes up to 256 code points.
    pub name: String,
    /// The field's text; the platform takes up to 1024 code points.
    pub value: String,
    /// Whether the field may share a line with its neighbours.
    pub inline: bool,
}

impl EmbedField {
    /// The field with the given title, text and placement.
    pub fn new(name: &str, value: &str, inline: bool) -> (r: Self)
        ensures
            r.name@ == name@,
            r.value@ == value@,
            r.inline == inline,
    {
        EmbedField { name: name.to_owned(), value: value.to_owned(), inline }
    }
}

/// The footer line of an embed.
#[derive(Clone, Debug, PartialEq, Eq)]
pub struct EmbedFooter {
    pub text: String,
    pub icon_url: Option<String>,
    pub proxy_icon_url: Option<String>,
}

/// The image of an embed.
#[derive(Clone, Debug, PartialEq, Eq)]
pub struct EmbedImage {
    pub url: String,
    pub proxy_url: Option<String>,
    pub height: Option<u64>,
    pub width: Option<u64>,
}

/// The service an embed's content comes from.
#[derive(Clone, Debug, PartialEq, Eq)]
pub struct EmbedProvider {
    pub name: Option<String>,
    pub url: Option<String>,
}

/// The thumbnail of an embed.
#[derive(Clone, Debug, PartialEq, Eq)]
pub struct EmbedThumbnail {
    pub url: String,
    pub proxy_url: Option<String>,
    pub height: Option<u64>,
    pub width: Option<u64>,
}

/// The video of an embed.
#[derive(Clone, Debug, PartialEq, Eq)]
pub struct EmbedVideo {
    pub url: String,
    pub proxy_url: Option<String>,
    pub height: Option<u64>,
    pub width: Option<u64>,
}

} // verus!
