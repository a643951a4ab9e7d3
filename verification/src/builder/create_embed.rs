//! Builders of embeds.

use vstd::prelude::*;
use crate::constants::EMBED_MAX_LENGTH;
use crate::error::{Error, ModelError};
use crate::model::channel::embed::{
    Embed,
    EmbedAuthor,
    EmbedField,
    EmbedFooter,
    EmbedImage,
    EmbedThumbnail,
};
use crate::model::colour::Colour;
use crate::model::timestamp::Timestamp;

verus! {

/// The code points in the names and values of the fields.
pub open spec fn fields_length(fields: Seq<EmbedField>) -> nat
    decreases fields.len(),
{
    if fields.len() == 0 {
        0
    } else {
        fields_length(fields.drop_last()) + fields.last().name@.len() + fields.last().value@.len()
    }
}

/// The code points in the author's name and the description.
pub open spec fn head_length(embed: Embed) -> nat {
    (match embed.author {
        Some(author) => author.name@.len(),
        None => 0,
    }) + (match embed.description {
        Some(description) => description@.len(),
        None => 0,
    })
}

/// The code points in the footer's text and the title.
pub open spec fn tail_length(embed: Embed) -> nat {
    (match embed.footer {
        Some(footer) => footer.text@.len(),
        None => 0,
    }) + (match embed.title {
        Some(title) => title@.len(),
        None => 0,
    })
}

/// The code points in the texts of an embed that count towards the platform's
/// limit: the author's name, the description, the fields' names and values, the
/// footer's text and the title.
pub open spec fn embed_length(embed: Embed) -> nat {
    head_length(embed) + fields_length(embed.fields@) + tail_length(embed)
}

/// The smaller of `n` and the largest `usize`.
pub open spec fn capped(n: nat) -> usize {
    if n <= usize::MAX {
        n as usize
    } else {
        usize::MAX
    }
}

/// The image at the address `url`, with nothing else known of it.
pub open spec fn image_at(image: EmbedImage, url: Seq<char>) -> bool {
    &&& image.url@ == url
    &&& image.proxy_url is None
    &&& image.height is None
    &&& image.width is None
}

/// A builder of an embed.
#[derive(Clone, Debug, PartialEq, Eq)]
pub struct CreateEmbed(pub Embed);

impl CreateEmbed {
    /// The builder of a rich embed with nothing set.
    pub fn new() -> (r: Self)
        ensures
            r.0.kind matches Some(kind) && kind@ == "rich"@,
            r.0.fields@.len() == 0,
            r.0.author is None,
            r.0.colour is None,
            r.0.description is None,
            r.0.footer is None,
            r.0.image is None,
            r.0.provider is None,
            r.0.thumbnail is None,
            r.0.timestamp is None,
            r.0.title is None,
            r.0.url is None,
            r.0.video is None,
    {
        CreateEmbed(
            Embed {
                fields: Vec::new(),
                description: None,
                thumbnail: None,
                timestamp: None,
                kind: Some("rich".to_owned()),
                author: None,
                colour: None,
                footer: None,
                image: None,
                title: None,
                url: None,
                provider: None,
                video: None,
            },
        )
    }

    /// Sets the author line.
    pub fn author(self, author: CreateEmbedAuthor) -> (r: Self)
        ensures
            r.0 == (Embed { author: Some(author.0), ..self.0 }),
    {
        CreateEmbed(Embed { author: Some(author.0), ..self.0 })
    }

    /// Sets the colour of the left edge; the same as [`Self::colour`].
    pub fn color(self, colour: Colour) -> (r: Self)
        ensures
            r.0 == (Embed { colour: Some(colour), ..self.0 }),
    {
        self.colour(colour)
    }

    /// Sets the colour of the left edge.
    pub fn colour(self, colour: Colour) -> (r: Self)
        ensures
            r.0 == (Embed { colour: Some(colour), ..self.0 }),
    {
        CreateEmbed(Embed { colour: Some(colour), ..self.0 })
    }

    /// Sets the body text; the platform takes up to 4096 code points.
    pub fn description(self, description: &str) -> (r: Self)
        ensures
            r.0.description matches Some(set) && set@ == description@,
            r.0 == (Embed { description: r.0.description, ..self.0 }),
    {
        CreateEmbed(Embed { description: Some(description.to_owned()), ..self.0 })
    }

    /// Adds a field behind the fields that are there. The platform takes up to 256
    /// code points in a name and 1024 in a value.
    pub fn field(self, name: &str, value: &str, inline: bool) -> (r: Self)
        ensures
            r.0.fields@.len() == self.0.fields@.len() + 1,
            r.0.fields@.drop_last() == self.0.fields@,
            r.0.fields@.last().name@ == name@,
            r.0.fields@.last().value@ == value@,
            r.0.fields@.last().inline == inline,
            r.0 == (Embed { fields: r.0.fields, ..self.0 }),
    {
        let mut fields = self.0.fields;
        fields.push(EmbedField::new(name, value, inline));
        assert(fields@.drop_last() =~= self.0.fields@);
        CreateEmbed(Embed { fields, ..self.0 })
    }

    /// Adds fields, each a name, a value and whether it is inline, in their order
    /// behind the fields that are there.
    pub fn fields(self, fields: Vec<(String, String, bool)>) -> (r: Self)
        ensures
            r.0.fields@.len() == self.0.fields@.len() + fields@.len(),
            r.0.fields@.take(self.0.fields@.len() as int) == self.0.fields@,
            forall|i: int|
                0 <= i < fields@.len() ==> (#[trigger] r.0.fields@[self.0.fields@.len() + i]) == (
                EmbedField { name: fields@[i].0, value: fields@[i].1, inline: fields@[i].2 }),
            r.0 == (Embed { fields: r.0.fields, ..self.0 }),
    {
        let mut all = self.0.fields;
        let ghost start = all@;
        let mut i: usize = 0;
        while i < fields.len()
            invariant
                i <= fields.len(),
                start == self.0.fields@,
                all@.len() == start.len() + i,
                all@.take(start.len() as int) == start,
                forall|j: int|
                    0 <= j < i ==> (#[trigger] all@[start.len() + j]) == (EmbedField {
                        name: fields@[j].0,
                        value: fields@[j].1,
                        inline: fields@[j].2,
                    }),
            decreases fields.len() - i,
        {
            let ghost before = all@;
            all.push(
                EmbedField {
                    name: fields[i].0.clone(),
                    value: fields[i].1.clone(),
                    inline: fields[i].2,
                },
            );
            assert(all@.take(start.len() as int) =~= before.take(start.len() as int));
            i = i + 1;
        }
        CreateEmbed(Embed { fields: all, ..self.0 })
    }

    /// Sets the footer line.
    pub fn footer(self, footer: CreateEmbedFooter) -> (r: Self)
        ensures
            r.0 == (Embed { footer: Some(footer.0), ..self.0 }),
    {
        CreateEmbed(Embed { footer: Some(footer.0), ..self.0 })
    }

    /// Sets the image to the one at the address `url`.
    pub fn image(self, url: &str) -> (r: Self)
        ensures
            r.0.image matches Some(image) && image_at(image, url@),
            r.0 == (Embed { image: r.0.image, ..self.0 }),
    {
        let image = EmbedImage { url: url.to_owned(), proxy_url: None, height: None, width: None };
        CreateEmbed(Embed { image: Some(image), ..self.0 })
    }

    /// Sets the thumbnail to the image at the address `url`.
    pub fn thumbnail(self, url: &str) -> (r: Self)
        ensures
            r.0.thumbnail matches Some(thumbnail) && thumbnail.url@ == url@
                && thumbnail.proxy_url is None && thumbnail.height is None
                && thumbnail.width is None,
            r.0 == (Embed { thumbnail: r.0.thumbnail, ..self.0 }),
    {
        let thumbnail = EmbedThumbnail {
            url: url.to_owned(),
            proxy_url: None,
            height: None,
            width: None,
        };
        CreateEmbed(Embed { thumbnail: Some(thumbnail), ..self.0 })
    }

    /// Sets the time shown in the footer.
    pub fn timestamp(self, timestamp: Timestamp) -> (r: Self)
        ensures
            r.0 == (Embed { timestamp: Some(timestamp), ..self.0 }),
    {
        CreateEmbed(Embed { timestamp: Some(timestamp), ..self.0 })
    }

    /// Sets the title.
    pub fn title(self, title: &str) -> (r: Self)
        ensures
            r.0.title matches Some(set) && set@ == title@,
            r.0 == (Embed { title: r.0.title, ..self.0 }),
    {
        CreateEmbed(Embed { title: Some(title.to_owned()), ..self.0 })
    }

    /// Sets the address that a click on the title leads to.
    pub fn url(self, url: &str) -> (r: Self)
        ensures
            r.0.url matches Some(set) && set@ == url@,
            r.0 == (Embed { url: r.0.url, ..self.0 }),
    {
        CreateEmbed(Embed { url: Some(url.to_owned()), ..self.0 })
    }

    /// Sets the image to the attached file `filename`: the address is
    /// `attachment://` followed by the name. The message must carry a file of that
    /// name.
    pub fn attachment(self, filename: &str) -> (r: Self)
        ensures
            r.0.image matches Some(image) && image_at(image, "attachment://"@ + filename@),
            r.0 == (Embed { image: r.0.image, ..self.0 }),
    {
        let url = String::from_str("attachment://").concat(filename);
        let image = EmbedImage { url, proxy_url: None, height: None, width: None };
        CreateEmbed(Embed { image: Some(image), ..self.0 })
    }

    /// The code points in the texts that count towards the platform's limit, or the
    /// largest `usize` if they are more than that.
    pub fn length(&self) -> (r: usize)
        ensures
            r == capped(embed_length(self.0)),
    {
        let mut length: usize = 0;
        if let Some(author) = &self.0.author {
            length = length.saturating_add(author.name.as_str().unicode_len());
        }
        if let Some(description) = &self.0.description {
            length = length.saturating_add(description.as_str().unicode_len());
        }
        let ghost head_true = head_length(self.0);
        assert(length == capped(head_true));
        let mut i: usize = 0;
        while i < self.0.fields.len()
            invariant
                i <= self.0.fields.len(),
                length == capped(head_true + fields_length(self.0.fields@.take(i as int))),
            decreases self.0.fields.len() - i,
        {
            let field = &self.0.fields[i];
            proof {
                let next = self.0.fields@.take(i + 1);
                assert(next.drop_last() =~= self.0.fields@.take(i as int));
                assert(next.last() == self.0.fields@[i as int]);
            }
            length = length.saturating_add(field.name.as_str().unicode_len());
            length = length.saturating_add(field.value.as_str().unicode_len());
            i = i + 1;
        }
        assert(self.0.fields@.take(i as int) =~= self.0.fields@);
        if let Some(footer) = &self.0.footer {
            length = length.saturating_add(footer.text.as_str().unicode_len());
        }
        if let Some(title) = &self.0.title {
            length = length.saturating_add(title.as_str().unicode_len());
        }
        length
    }

    /// Whether the platform takes the embed: it does not where the texts hold more
    /// than 6000 code points in all, and the error tells by how many.
    pub fn check_length(&self) -> (r: Result<(), Error>)
        ensures
            match r {
                Ok(_) => embed_length(self.0) <= EMBED_MAX_LENGTH,
                Err(e) => embed_length(self.0) > EMBED_MAX_LENGTH && e == Error::Model(
                    ModelError::EmbedTooLarge(
                        (capped(embed_length(self.0)) - EMBED_MAX_LENGTH) as usize,
                    ),
                ),
            },
    {
        let length = self.length();
        let max_length = EMBED_MAX_LENGTH;
        if length > max_length {
            let overflow = length - max_length;
            return Err(Error::Model(ModelError::EmbedTooLarge(overflow)));
        }
        Ok(())
    }
}

impl Default for CreateEmbed {
    fn default() -> (r: Self)
        ensures
            r.0.kind matches Some(kind) && kind@ == "rich"@,
            r.0.fields@.len() == 0,
            r.0.author is None,
            r.0.colour is None,
            r.0.description is None,
            r.0.footer is None,
            r.0.image is None,
            r.0.provider is None,
            r.0.thumbnail is None,
            r.0.timestamp is None,
            r.0.title is None,
            r.0.url is None,
            r.0.video is None,
    {
        CreateEmbed::new()
    }
}

impl From<Embed> for CreateEmbed {
    fn from(embed: Embed) -> (r: Self) {
        CreateEmbed(embed)
    }
}

impl vstd::std_specs::convert::FromSpecImpl<Embed> for CreateEmbed {
    open spec fn obeys_from_spec() -> bool {
        true
    }

    open spec fn from_spec(embed: Embed) -> Self {
        CreateEmbed(embed)
    }
}

/// A builder of the author line of an embed.
#[derive(Clone, Debug, PartialEq, Eq)]
pub struct CreateEmbedAuthor(pub EmbedAuthor);

impl CreateEmbedAuthor {
    /// The author line with the given name and nothing else set.
    pub fn new(name: &str) -> (r: Self)
        ensures
            r.0.name@ == name@,
            r.0.icon_url is None,
            r.0.url is None,
            r.0.proxy_icon_url is None,
    {
        CreateEmbedAuthor(
            EmbedAuthor { name: name.to_owned(), icon_url: None, url: None, proxy_icon_url: None },
        )
    }

    /// Sets the author's name.
    pub fn name(self, name: &str) -> (r: Self)
        ensures
            r.0.name@ == name@,
            r.0 == (EmbedAuthor { name: r.0.name, ..self.0 }),
    {
        CreateEmbedAuthor(EmbedAuthor { name: name.to_owned(), ..self.0 })
    }

    /// Sets the address of the author's icon.
    pub fn icon_url(self, icon_url: &str) -> (r: Self)
        ensures
            r.0.icon_url matches Some(set) && set@ == icon_url@,
            r.0 == (EmbedAuthor { icon_url: r.0.icon_url, ..self.0 }),
    {
        CreateEmbedAuthor(EmbedAuthor { icon_url: Some(icon_url.to_owned()), ..self.0 })
    }

    /// Sets the address that a click on the author leads to.
    pub fn url(self, url: &str) -> (r: Self)
        ensures
            r.0.url matches Some(set) && set@ == url@,
            r.0 == (EmbedAuthor { url: r.0.url, ..self.0 }),
    {
        CreateEmbedAuthor(EmbedAuthor { url: Some(url.to_owned()), ..self.0 })
    }
}

impl From<EmbedAuthor> for CreateEmbedAuthor {
    fn from(author: EmbedAuthor) -> (r: Self) {
        CreateEmbedAuthor(author)
    }
}

impl vstd::std_specs::convert::FromSpecImpl<EmbedAuthor> for CreateEmbedAuthor {
    open spec fn obeys_from_spec() -> bool {
        true
    }

    open spec fn from_spec(author: EmbedAuthor) -> Self {
        CreateEmbedAuthor(author)
    }
}

/// A builder of the footer line of an embed.
#[derive(Clone, Debug, PartialEq, Eq)]
pub struct CreateEmbedFooter(pub EmbedFooter);

impl CreateEmbedFooter {
    /// The footer line with the given text and nothing else set.
    pub fn new(text: &str) -> (r: Self)
        ensures
            r.0.text@ == text@,
            r.0.icon_url is None,
            r.0.proxy_icon_url is None,
    {
        CreateEmbedFooter(
            EmbedFooter { text: text.to_owned(), icon_url: None, proxy_icon_url: None },
        )
    }

    /// Sets the footer's text.
    pub fn text(self, text: &str) -> (r: Self)
        ensures
            r.0.text@ == text@,
            r.0 == (EmbedFooter { text: r.0.text, ..self.0 }),
    {
        CreateEmbedFooter(EmbedFooter { text: text.to_owned(), ..self.0 })
    }

    /// Sets the address of the footer's icon.
    pub fn icon_url(self, icon_url: &str) -> (r: Self)
        ensures
            r.0.icon_url matches Some(set) && set@ == icon_url@,
            r.0 == (EmbedFooter { icon_url: r.0.icon_url, ..self.0 }),
    {
        CreateEmbedFooter(EmbedFooter { icon_url: Some(icon_url.to_owned()), ..self.0 })
    }
}

impl From<EmbedFooter> for CreateEmbedFooter {
    fn from(footer: EmbedFooter) -> (r: Self) {
        CreateEmbedFooter(footer)
    }
}

impl vstd::std_specs::convert::FromSpecImpl<EmbedFooter> for CreateEmbedFooter {
    open spec fn obeys_from_spec() -> bool {
        true
    }

    open spec fn from_spec(footer: EmbedFooter) -> Self {
        CreateEmbedFooter(footer)
    }
}

} // verus!
