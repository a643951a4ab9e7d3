//! Embeds as JSON.
//!
//! A member that is not set is not written, and neither is an empty list of
//! fields. The colour is written under `color` and the kind under `type`.

use vstd::prelude::*;
use crate::builder::create_embed::CreateEmbed;
use crate::json::{items_view, number_json, optional, text_json, Json, ObjectWriter, Value};
use crate::model::channel::embed::{
    Embed,
    EmbedAuthor,
    EmbedField,
    EmbedFooter,
    EmbedImage,
    EmbedProvider,
    EmbedThumbnail,
    EmbedVideo,
};
use crate::model::colour::Colour;
use crate::model::timestamp::Timestamp;

verus! {

/// The members of a piece of media: the address, and what is known of a proxy
/// and of the size.
pub open spec fn media_json(
    url: String,
    proxy_url: Option<String>,
    height: Option<u64>,
    width: Option<u64>,
) -> Json {
    Json::Object(
        seq![("url"@, Json::Text(url@))] + optional("proxy_url"@, text_json(proxy_url)) + optional(
            "height"@,
            number_json(height),
        ) + optional("width"@, number_json(width)),
    )
}

fn write_media(
    url: &String,
    proxy_url: &Option<String>,
    height: Option<u64>,
    width: Option<u64>,
) -> (r: Value)
    ensures
        r@ == media_json(*url, *proxy_url, height, width),
{
    let mut object = ObjectWriter::new();
    object.put("url", Value::String(url.clone()));
    object.put_text("proxy_url", proxy_url);
    object.put_number("height", height);
    object.put_number("width", width);
    assert(object@ =~= media_json(*url, *proxy_url, height, width)->Object_0);
    object.finish()
}

impl EmbedAuthor {
    /// The author line as JSON.
    pub open spec fn json(&self) -> Json {
        Json::Object(
            seq![("name"@, Json::Text(self.name@))] + optional("url"@, text_json(self.url))
                + optional("icon_url"@, text_json(self.icon_url)) + optional(
                "proxy_icon_url"@,
                text_json(self.proxy_icon_url),
            ),
        )
    }

    /// Writes the author line as JSON.
    pub fn to_json(&self) -> (r: Value)
        ensures
            r@ == self.json(),
    {
        let mut object = ObjectWriter::new();
        object.put("name", Value::String(self.name.clone()));
        object.put_text("url", &self.url);
        object.put_text("icon_url", &self.icon_url);
        object.put_text("proxy_icon_url", &self.proxy_icon_url);
        assert(object@ =~= self.json()->Object_0);
        object.finish()
    }
}

impl EmbedField {
    /// The field as JSON.
    pub open spec fn json(&self) -> Json {
        Json::Object(
            seq![
                ("name"@, Json::Text(self.name@)),
                ("value"@, Json::Text(self.value@)),
                ("inline"@, Json::Bool(self.inline)),
            ],
        )
    }

    /// Writes the field as JSON.
    pub fn to_json(&self) -> (r: Value)
        ensures
            r@ == self.json(),
    {
        let mut object = ObjectWriter::new();
        object.put("name", Value::String(self.name.clone()));
        object.put("value", Value::String(self.value.clone()));
        object.put("inline", Value::Bool(self.inline));
        assert(object@ =~= self.json()->Object_0);
        object.finish()
    }
}

impl EmbedFooter {
    /// The footer line as JSON.
    pub open spec fn json(&self) -> Json {
        Json::Object(
            seq![("text"@, Json::Text(self.text@))] + optional(
                "icon_url"@,
                text_json(self.icon_url),
            ) + optional("proxy_icon_url"@, text_json(self.proxy_icon_url)),
        )
    }

    /// Writes the footer line as JSON.
    pub fn to_json(&self) -> (r: Value)
        ensures
            r@ == self.json(),
    {
        let mut object = ObjectWriter::new();
        object.put("text", Value::String(self.text.clone()));
        object.put_text("icon_url", &self.icon_url);
        object.put_text("proxy_icon_url", &self.proxy_icon_url);
        assert(object@ =~= self.json()->Object_0);
        object.finish()
    }
}

impl EmbedImage {
    /// The image as JSON.
    pub open spec fn json(&self) -> Json {
        media_json(self.url, self.proxy_url, self.height, self.width)
    }

    /// Writes the image as JSON.
    pub fn to_json(&self) -> (r: Value)
        ensures
            r@ == self.json(),
    {
        write_media(&self.url, &self.proxy_url, self.height, self.width)
    }
}

impl EmbedThumbnail {
    /// The thumbnail as JSON.
    pub open spec fn json(&self) -> Json {
        media_json(self.url, self.proxy_url, self.height, self.width)
    }

    /// Writes the thumbnail as JSON.
    pub fn to_json(&self) -> (r: Value)
        ensures
            r@ == self.json(),
    {
        write_media(&self.url, &self.proxy_url, self.height, self.width)
    }
}

impl EmbedVideo {
    /// The video as JSON.
    pub open spec fn json(&self) -> Json {
        media_json(self.url, self.proxy_url, self.height, self.width)
    }

    /// Writes the video as JSON.
    pub fn to_json(&self) -> (r: Value)
        ensures
            r@ == self.json(),
    {
        write_media(&self.url, &self.proxy_url, self.height, self.width)
    }
}

impl EmbedProvider {
    /// The provider as JSON.
    pub open spec fn json(&self) -> Json {
        Json::Object(
            optional("name"@, text_json(self.name)) + optional("url"@, text_json(self.url)),
        )
    }

    /// Writes the provider as JSON.
    pub fn to_json(&self) -> (r: Value)
        ensures
            r@ == self.json(),
    {
        let mut object = ObjectWriter::new();
        object.put_text("name", &self.name);
        object.put_text("url", &self.url);
        assert(object@ =~= self.json()->Object_0);
        object.finish()
    }
}

/// The fields as JSON values.
pub open spec fn fields_json(fields: Seq<EmbedField>) -> Seq<Json> {
    fields.map_values(|f: EmbedField| f.json())
}

/// The fields as the member `fields`, which is written only if there are fields.
pub open spec fn fields_member(fields: Seq<EmbedField>) -> Option<Json> {
    if fields.len() == 0 {
        None
    } else {
        Some(Json::Array(fields_json(fields)))
    }
}

/// The author line as a JSON value, if there is one.
pub open spec fn author_json(author: Option<EmbedAuthor>) -> Option<Json> {
    match author {
        Some(a) => Some(a.json()),
        None => None,
    }
}

/// The colour as a JSON value, if there is one.
pub open spec fn colour_json(colour: Option<Colour>) -> Option<Json> {
    match colour {
        Some(c) => Some(Json::Number(c.0 as u64)),
        None => None,
    }
}

/// The footer line as a JSON value, if there is one.
pub open spec fn footer_json(footer: Option<EmbedFooter>) -> Option<Json> {
    match footer {
        Some(f) => Some(f.json()),
        None => None,
    }
}

/// The image as a JSON value, if there is one.
pub open spec fn image_json(image: Option<EmbedImage>) -> Option<Json> {
    match image {
        Some(i) => Some(i.json()),
        None => None,
    }
}

/// The provider as a JSON value, if there is one.
pub open spec fn provider_json(provider: Option<EmbedProvider>) -> Option<Json> {
    match provider {
        Some(p) => Some(p.json()),
        None => None,
    }
}

/// The thumbnail as a JSON value, if there is one.
pub open spec fn thumbnail_json(thumbnail: Option<EmbedThumbnail>) -> Option<Json> {
    match thumbnail {
        Some(t) => Some(t.json()),
        None => None,
    }
}

/// The time as a JSON value, if there is one.
pub open spec fn timestamp_json(timestamp: Option<Timestamp>) -> Option<Json> {
    match timestamp {
        Some(t) => Some(Json::Text(t.0@)),
        None => None,
    }
}

/// The video as a JSON value, if there is one.
pub open spec fn video_json(video: Option<EmbedVideo>) -> Option<Json> {
    match video {
        Some(v) => Some(v.json()),
        None => None,
    }
}

impl Embed {
    /// The embed as JSON.
    pub open spec fn json(&self) -> Json {
        Json::Object(
            optional("author"@, author_json(self.author)) + optional(
                "color"@,
                colour_json(self.colour),
            ) + optional("description"@, text_json(self.description)) + optional(
                "fields"@,
                fields_member(self.fields@),
            ) + optional("footer"@, footer_json(self.footer)) + optional(
                "image"@,
                image_json(self.image),
            ) + optional("type"@, text_json(self.kind)) + optional(
                "provider"@,
                provider_json(self.provider),
            ) + optional("thumbnail"@, thumbnail_json(self.thumbnail)) + optional(
                "timestamp"@,
                timestamp_json(self.timestamp),
            ) + optional("title"@, text_json(self.title)) + optional("url"@, text_json(self.url))
                + optional("video"@, video_json(self.video)),
        )
    }

    /// Writes the embed as JSON.
    pub fn to_json(&self) -> (r: Value)
        ensures
            r@ == self.json(),
    {
        let mut object = ObjectWriter::new();
        let author = match &self.author {
            Some(a) => Some(a.to_json()),
            None => None,
        };
        object.put_optional("author", author);
        let colour = match self.colour {
            Some(c) => Some(Value::Number(c.0 as u64)),
            None => None,
        };
        object.put_optional("color", colour);
        object.put_text("description", &self.description);
        let fields = if self.fields.len() == 0 {
            None
        } else {
            let mut items: Vec<Value> = Vec::new();
            let mut i: usize = 0;
            while i < self.fields.len()
                invariant
                    i <= self.fields.len(),
                    items@.len() == i,
                    forall|k: int| 0 <= k < i ==> (#[trigger] items@[k])@ == self.fields@[k].json(),
                decreases self.fields.len() - i,
            {
                items.push(self.fields[i].to_json());
                i = i + 1;
            }
            assert(items_view(items@) =~= fields_json(self.fields@));
            Some(Value::array(items))
        };
        object.put_optional("fields", fields);
        let footer = match &self.footer {
            Some(f) => Some(f.to_json()),
            None => None,
        };
        object.put_optional("footer", footer);
        let image = match &self.image {
            Some(i) => Some(i.to_json()),
            None => None,
        };
        object.put_optional("image", image);
        object.put_text("type", &self.kind);
        let provider = match &self.provider {
            Some(p) => Some(p.to_json()),
            None => None,
        };
        object.put_optional("provider", provider);
        let thumbnail = match &self.thumbnail {
            Some(t) => Some(t.to_json()),
            None => None,
        };
        object.put_optional("thumbnail", thumbnail);
        let timestamp = match &self.timestamp {
            Some(t) => Some(Value::String(t.0.clone())),
            None => None,
        };
        object.put_optional("timestamp", timestamp);
        object.put_text("title", &self.title);
        object.put_text("url", &self.url);
        let video = match &self.video {
            Some(v) => Some(v.to_json()),
            None => None,
        };
        object.put_optional("video", video);
        assert(object@ =~= self.json()->Object_0);
        object.finish()
    }
}

impl CreateEmbed {
    /// The embed as JSON.
    pub open spec fn json(&self) -> Json {
        self.0.json()
    }

    /// Writes the embed as JSON.
    pub fn to_json(&self) -> (r: Value)
        ensures
            r@ == self.json(),
    {
        self.0.to_json()
    }
}

} // verus!
