//! The edit of the first answer to an interaction.

use vstd::prelude::*;
use crate::builder::create_allowed_mentions::CreateAllowedMentions;
use crate::builder::create_attachment::{CreateAttachment, ExistingAttachment};
use crate::builder::create_components::CreateComponents;
use crate::builder::create_embed::{capped, embed_length, CreateEmbed};
use crate::constants::{EMBED_MAX_COUNT, EMBED_MAX_LENGTH, MESSAGE_CODE_LIMIT};
use crate::error::{Error, ModelError};
use crate::utils::check_overflow;

verus! {

/// The items of a list that may not be set: none where it is not.
pub open spec fn listed<T>(list: Option<Vec<T>>) -> Seq<T> {
    match list {
        Some(items) => items@,
        None => Seq::empty(),
    }
}

/// The error of the first embed whose texts are too long, if there is one.
pub open spec fn first_too_large(embeds: Seq<CreateEmbed>) -> Option<Error>
    decreases embeds.len(),
{
    if embeds.len() == 0 {
        None
    } else if embed_length(embeds[0].0) > EMBED_MAX_LENGTH {
        Some(
            Error::Model(
                ModelError::EmbedTooLarge(
                    (capped(embed_length(embeds[0].0)) - EMBED_MAX_LENGTH) as usize,
                ),
            ),
        )
    } else {
        first_too_large(embeds.drop_first())
    }
}

/// A builder of the edit of the first answer to an interaction.
#[derive(Clone, Debug, PartialEq, Eq)]
pub struct EditInteractionResponse {
    pub embeds: Option<Vec<CreateEmbed>>,
    pub content: Option<String>,
    pub allowed_mentions: Option<CreateAllowedMentions>,
    pub components: Option<CreateComponents>,
    /// The files of the answer that stay; all stay where none is named.
    pub attachments: Option<Vec<ExistingAttachment>>,
    /// The files that the edit adds.
    pub files: Vec<CreateAttachment>,
}

impl EditInteractionResponse {
    /// The edit that changes nothing.
    pub fn new() -> (r: Self)
        ensures
            r.embeds is None,
            r.content is None,
            r.allowed_mentions is None,
            r.components is None,
            r.attachments is None,
            r.files@.len() == 0,
    {
        EditInteractionResponse {
            embeds: None,
            content: None,
            allowed_mentions: None,
            components: None,
            attachments: None,
            files: Vec::new(),
        }
    }

    /// What the check of the lengths finds: the content may hold 2000 code points,
    /// there may be 10 embeds, and each embed's texts may hold 6000 code points.
    /// The first of these that fails, in this order, is reported.
    pub open spec fn length_error(&self) -> Option<Error> {
        let content_length = match self.content {
            Some(content) => content@.len(),
            None => 0,
        };
        if content_length > MESSAGE_CODE_LIMIT {
            Some(
                Error::Model(
                    ModelError::MessageTooLong((content_length - MESSAGE_CODE_LIMIT) as usize),
                ),
            )
        } else {
            match self.embeds {
                Some(embeds) => if embeds@.len() > EMBED_MAX_COUNT {
                    Some(Error::Model(ModelError::EmbedAmount))
                } else {
                    first_too_large(embeds@)
                },
                None => None,
            }
        }
    }

    /// Whether the platform takes the edit, as far as lengths go.
    pub fn check_length(&self) -> (r: Result<(), Error>)
        ensures
            match r {
                Ok(_) => self.length_error() is None,
                Err(e) => self.length_error() == Some(e),
            },
    {
        if let Some(content) = &self.content {
            match check_overflow(content.as_str().unicode_len(), MESSAGE_CODE_LIMIT) {
                Err(overflow) => {
                    return Err(Error::Model(ModelError::MessageTooLong(overflow)));
                },
                Ok(_) => {},
            }
        }
        if let Some(embeds) = &self.embeds {
            match check_overflow(embeds.len(), EMBED_MAX_COUNT) {
                Err(_) => {
                    return Err(Error::Model(ModelError::EmbedAmount));
                },
                Ok(_) => {},
            }
            let mut i: usize = 0;
            assert(embeds@.skip(0) =~= embeds@);
            while i < embeds.len()
                invariant
                    i <= embeds.len(),
                    self.embeds == Some(*embeds),
                    self.length_error() == first_too_large(embeds@),
                    first_too_large(embeds@) == first_too_large(embeds@.skip(i as int)),
                decreases embeds.len() - i,
            {
                proof {
                    let rest = embeds@.skip(i as int);
                    assert(rest[0] == embeds@[i as int]);
                    assert(rest.drop_first() =~= embeds@.skip(i + 1));
                }
                match embeds[i].check_length() {
                    Err(e) => {
                        return Err(e);
                    },
                    Ok(_) => {},
                }
                i = i + 1;
            }
            assert(embeds@.skip(i as int).len() == 0);
        }
        Ok(())
    }

    /// Sets the content of the message; the platform takes up to 2000 code points.
    pub fn content(self, content: &str) -> (r: Self)
        ensures
            r.content matches Some(set) && set@ == content@,
            r == (EditInteractionResponse { content: r.content, ..self }),
    {
        EditInteractionResponse { content: Some(content.to_owned()), ..self }
    }

    /// Adds an embed behind those that the edit holds.
    pub fn add_embed(self, embed: CreateEmbed) -> (r: Self)
        ensures
            r.embeds matches Some(embeds) && embeds@ == listed(self.embeds).push(embed),
            r == (EditInteractionResponse { embeds: r.embeds, ..self }),
    {
        let mut embeds = match self.embeds {
            Some(embeds) => embeds,
            None => Vec::new(),
        };
        embeds.push(embed);
        EditInteractionResponse { embeds: Some(embeds), ..self }
    }

    /// Adds embeds, in their order, behind those that the edit holds.
    pub fn add_embeds(self, embeds: Vec<CreateEmbed>) -> (r: Self)
        ensures
            r.embeds matches Some(all) && all@ == listed(self.embeds) + embeds@,
            r == (EditInteractionResponse { embeds: r.embeds, ..self }),
    {
        let mut all = match self.embeds {
            Some(embeds) => embeds,
            None => Vec::new(),
        };
        let mut embeds = embeds;
        all.append(&mut embeds);
        EditInteractionResponse { embeds: Some(all), ..self }
    }

    /// Puts one embed in place of all that the edit holds.
    pub fn embed(self, embed: CreateEmbed) -> (r: Self)
        ensures
            r.embeds matches Some(embeds) && embeds@ == seq![embed],
            r == (EditInteractionResponse { embeds: r.embeds, ..self }),
    {
        let mut embeds: Vec<CreateEmbed> = Vec::new();
        embeds.push(embed);
        assert(embeds@ =~= seq![embed]);
        EditInteractionResponse { embeds: Some(embeds), ..self }
    }

    /// Puts the given embeds in place of all that the edit holds; the platform
    /// takes up to 10.
    pub fn embeds(self, embeds: Vec<CreateEmbed>) -> (r: Self)
        ensures
            r == (EditInteractionResponse { embeds: Some(embeds), ..self }),
    {
        EditInteractionResponse { embeds: Some(embeds), ..self }
    }

    /// Sets which mentions may notify.
    pub fn allowed_mentions(self, allowed_mentions: CreateAllowedMentions) -> (r: Self)
        ensures
            r == (EditInteractionResponse { allowed_mentions: Some(allowed_mentions), ..self }),
    {
        EditInteractionResponse { allowed_mentions: Some(allowed_mentions), ..self }
    }

    /// Sets the components of the message.
    pub fn components(self, components: CreateComponents) -> (r: Self)
        ensures
            r == (EditInteractionResponse { components: Some(components), ..self }),
    {
        EditInteractionResponse { components: Some(components), ..self }
    }

    /// Adds a file. It is listed among the files that stay under a number of its
    /// own: its place among the files that the edit adds.
    pub fn add_attachment(self, attachment: CreateAttachment) -> (r: Self)
        ensures
            r.files@ == self.files@.push(attachment),
            r.attachments matches Some(kept) && kept@ == listed(self.attachments).push(
                ExistingAttachment { id: self.files@.len() as u64 },
            ),
            r == (EditInteractionResponse { files: r.files, attachments: r.attachments, ..self }),
    {
        let mut files = self.files;
        let id = files.len() as u64;
        files.push(attachment);
        let mut kept = match self.attachments {
            Some(kept) => kept,
            None => Vec::new(),
        };
        kept.push(ExistingAttachment { id });
        EditInteractionResponse { files, attachments: Some(kept), ..self }
    }

    /// Names the files of the answer that stay: those with the given identifiers,
    /// and no others.
    pub fn keep_specific_attachments(self, ids: Vec<u64>) -> (r: Self)
        ensures
            r.attachments matches Some(kept) && kept@ == ids@.map_values(
                |id: u64| ExistingAttachment { id },
            ),
            r == (EditInteractionResponse { attachments: r.attachments, ..self }),
    {
        let mut kept: Vec<ExistingAttachment> = Vec::new();
        let mut i: usize = 0;
        while i < ids.len()
            invariant
                i <= ids.len(),
                kept@ == ids@.take(i as int).map_values(|id: u64| ExistingAttachment { id }),
            decreases ids.len() - i,
        {
            kept.push(ExistingAttachment { id: ids[i] });
            assert(kept@ =~= ids@.take(i + 1).map_values(|id: u64| ExistingAttachment { id }));
            i = i + 1;
        }
        assert(ids@.take(i as int) =~= ids@);
        EditInteractionResponse { attachments: Some(kept), ..self }
    }
}

impl Default for EditInteractionResponse {
    fn default() -> (r: Self)
        ensures
            r.embeds is None,
            r.content is None,
            r.allowed_mentions is None,
            r.components is None,
            r.attachments is None,
            r.files@.len() == 0,
    {
        EditInteractionResponse::new()
    }
}

} // verus!
