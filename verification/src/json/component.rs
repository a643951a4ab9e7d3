//! Components and their builders as JSON.
//!
//! A member that is not set is not written. Identifiers are written as decimal
//! text. A link button is written with the style 5, which no other button has.

use vstd::prelude::*;
use vstd::std_specs::convert::FromSpec;
use crate::builder::create_components::{
    CreateActionRow,
    CreateButton,
    CreateComponents,
    CreateInputText,
    CreateSelectMenu,
    CreateSelectMenuOption,
};
use crate::json::decimal::{decimal, decimal_text, parse_decimal, parsed_decimal};
use crate::json::{
    bool_json,
    items_view,
    number_json,
    optional,
    text_json,
    Json,
    ObjectWriter,
    Value,
};
use crate::model::application::component::{
    Button,
    ButtonKind,
    ButtonStyle,
    ComponentType,
    InputTextStyle,
};
use crate::model::channel::ReactionType;
use crate::model::id::EmojiId;

verus! {

/// The number that stands for the kind of a component.
pub open spec fn component_number(kind: ComponentType) -> u64 {
    <u8 as FromSpec<ComponentType>>::from_spec(kind) as u64
}

/// The number that stands for the look of a button.
pub open spec fn style_number(style: ButtonStyle) -> u64 {
    <u8 as FromSpec<ButtonStyle>>::from_spec(style) as u64
}

/// The number that stands for the size of a text input.
pub open spec fn input_style_number(style: InputTextStyle) -> u64 {
    <u8 as FromSpec<InputTextStyle>>::from_spec(style) as u64
}

/// The number that stands for a link button in place of a look.
pub const LINK_STYLE: u64 = 5;

impl ReactionType {
    /// The emoji as JSON: a custom emoji with `animated`, `id` and `name`, where a
    /// name that is not known is written as `null`; an emoji of Unicode with
    /// `name` alone.
    pub open spec fn json(&self) -> Json {
        match self {
            ReactionType::Custom { animated, id, name } => Json::Object(
                seq![
                    ("animated"@, Json::Bool(*animated)),
                    ("id"@, Json::Text(decimal(id.0))),
                    (
                        "name"@,
                        match name {
                            Some(n) => Json::Text(n@),
                            None => Json::Null,
                        },
                    ),
                ],
            ),
            ReactionType::Unicode(text) => Json::Object(seq![("name"@, Json::Text(text@))]),
        }
    }

    /// Writes the emoji as JSON.
    pub fn to_json(&self) -> (r: Value)
        ensures
            r@ == self.json(),
    {
        let mut object = ObjectWriter::new();
        match self {
            ReactionType::Custom { animated, id, name } => {
                object.put("animated", Value::Bool(*animated));
                object.put("id", Value::String(decimal_text(id.0)));
                let name = match name {
                    Some(n) => Value::String(n.clone()),
                    None => Value::Null,
                };
                object.put("name", name);
            },
            ReactionType::Unicode(text) => {
                object.put("name", Value::String(text.clone()));
            },
        }
        assert(object@ =~= self.json()->Object_0);
        object.finish()
    }

    /// Whether the JSON value `j` reads as the emoji `e`. With an `id` it is a
    /// custom emoji: the `id` is decimal text, `animated` counts as false where it
    /// is not a truth value, and the name is the text under `name`, if there is
    /// text. Without an `id` it is an emoji of Unicode, which `name` must hold.
    pub open spec fn reads_as(j: Json, e: ReactionType) -> bool {
        match j.get("id"@) {
            Some(held) => {
                &&& held matches Json::Text(text)
                &&& parsed_decimal(text) matches Some(number)
                &&& e matches ReactionType::Custom { animated, id, name }
                &&& id == EmojiId(number)
                &&& animated == (j.get("animated"@) == Some(Json::Bool(true)))
                &&& match j.get("name"@) {
                    Some(Json::Text(n)) => name matches Some(read) && read@ == n,
                    _ => name is None,
                }
            },
            None => {
                &&& e matches ReactionType::Unicode(text)
                &&& j.get("name"@) == Some(Json::Text(text@))
            },
        }
    }

    /// Reads an emoji from JSON.
    pub fn from_json(value: &Value) -> (r: Option<ReactionType>)
        ensures
            match r {
                Some(e) => ReactionType::reads_as(value@, e),
                None => forall|e: ReactionType| !ReactionType::reads_as(value@, e),
            },
    {
        match value.get("id") {
            Some(held) => {
                let number = match held.as_text() {
                    Some(text) => match parse_decimal(text.as_str()) {
                        Some(number) => number,
                        None => {
                            return None;
                        },
                    },
                    None => {
                        return None;
                    },
                };
                let animated = match value.get("animated") {
                    Some(v) => match v.as_bool() {
                        Some(b) => b,
                        None => false,
                    },
                    None => false,
                };
                let name = match value.get("name") {
                    Some(v) => match v.as_text() {
                        Some(n) => Some(n.clone()),
                        None => None,
                    },
                    None => None,
                };
                Some(ReactionType::Custom { animated, id: EmojiId(number), name })
            },
            None => match value.get("name") {
                Some(v) => match v.as_text() {
                    Some(text) => Some(ReactionType::Unicode(text.clone())),
                    None => None,
                },
                None => None,
            },
        }
    }
}

/// The emoji as a JSON value, if there is one.
pub open spec fn emoji_json(emoji: Option<ReactionType>) -> Option<Json> {
    match emoji {
        Some(e) => Some(e.json()),
        None => None,
    }
}

fn write_emoji(emoji: &Option<ReactionType>) -> (r: Option<Value>)
    ensures
        match r {
            Some(v) => emoji_json(*emoji) == Some(v@),
            None => emoji_json(*emoji) is None,
        },
{
    match emoji {
        Some(e) => Some(e.to_json()),
        None => None,
    }
}

impl Button {
    /// What tells a link from other buttons, as members: the style and the address,
    /// or the style and the identifier.
    pub open spec fn data_json(&self) -> Seq<(Seq<char>, Json)> {
        match self.data {
            ButtonKind::Link { url } => seq![
                ("style"@, Json::Number(LINK_STYLE)),
                ("url"@, Json::Text(url@)),
            ],
            ButtonKind::NonLink { custom_id, style } => seq![
                ("style"@, Json::Number(style_number(style))),
                ("custom_id"@, Json::Text(custom_id@)),
            ],
        }
    }

    /// The button as JSON.
    pub open spec fn json(&self) -> Json {
        Json::Object(
            seq![("type"@, Json::Number(component_number(self.kind)))] + self.data_json()
                + seq![("label"@, Json::Text(self.label@))] + optional(
                "emoji"@,
                emoji_json(self.emoji),
            ) + seq![("disabled"@, Json::Bool(self.disabled))],
        )
    }

    /// Writes the button as JSON.
    pub fn to_json(&self) -> (r: Value)
        ensures
            r@ == self.json(),
    {
        let mut object = ObjectWriter::new();
        object.put("type", Value::Number(u8::from(self.kind) as u64));
        match &self.data {
            ButtonKind::Link { url } => {
                object.put("style", Value::Number(LINK_STYLE));
                object.put("url", Value::String(url.clone()));
            },
            ButtonKind::NonLink { custom_id, style } => {
                object.put("style", Value::Number(u8::from(*style) as u64));
                object.put("custom_id", Value::String(custom_id.clone()));
            },
        }
        object.put("label", Value::String(self.label.clone()));
        object.put_optional("emoji", write_emoji(&self.emoji));
        object.put("disabled", Value::Bool(self.disabled));
        assert(object@ =~= self.json()->Object_0);
        object.finish()
    }

    /// Whether the JSON value `j` reads as the button `b`. `type` and `style` are
    /// numbers below 256; the style 5 makes a link with the address under `url`,
    /// any other a button with the identifier under `custom_id`; `label` is text;
    /// `emoji`, where it is there, reads as an emoji; `disabled` counts as false
    /// where it is not true.
    pub open spec fn reads_as(j: Json, b: Button) -> bool {
        &&& j.get("type"@) matches Some(Json::Number(kind))
        &&& kind <= u8::MAX
        &&& b.kind == <ComponentType as FromSpec<u8>>::from_spec(kind as u8)
        &&& j.get("style"@) matches Some(Json::Number(style))
        &&& style <= u8::MAX
        &&& if style == LINK_STYLE {
            &&& b.data matches ButtonKind::Link { url }
            &&& j.get("url"@) == Some(Json::Text(url@))
        } else {
            &&& b.data matches ButtonKind::NonLink { custom_id, style: look }
            &&& j.get("custom_id"@) == Some(Json::Text(custom_id@))
            &&& look == <ButtonStyle as FromSpec<u8>>::from_spec(style as u8)
        }
        &&& j.get("label"@) == Some(Json::Text(b.label@))
        &&& match j.get("emoji"@) {
            Some(held) => b.emoji matches Some(e) && ReactionType::reads_as(held, e),
            None => b.emoji is None,
        }
        &&& b.disabled == (j.get("disabled"@) == Some(Json::Bool(true)))
    }

    /// Reads a button from JSON.
    pub fn from_json(value: &Value) -> (r: Option<Button>)
        ensures
            match r {
                Some(b) => Button::reads_as(value@, b),
                None => forall|b: Button| !Button::reads_as(value@, b),
            },
    {
        let kind = match value.get("type") {
            Some(v) => match v.as_number() {
                Some(n) => n,
                None => {
                    return None;
                },
            },
            None => {
                return None;
            },
        };
        if kind > 255 {
            return None;
        }
        let style = match value.get("style") {
            Some(v) => match v.as_number() {
                Some(n) => n,
                None => {
                    return None;
                },
            },
            None => {
                return None;
            },
        };
        if style > 255 {
            return None;
        }
        let data = if style == LINK_STYLE {
            match value.get("url") {
                Some(v) => match v.as_text() {
                    Some(url) => ButtonKind::Link { url: url.clone() },
                    None => {
                        return None;
                    },
                },
                None => {
                    return None;
                },
            }
        } else {
            match value.get("custom_id") {
                Some(v) => match v.as_text() {
                    Some(custom_id) => ButtonKind::NonLink {
                        custom_id: custom_id.clone(),
                        style: ButtonStyle::from(style as u8),
                    },
                    None => {
                        return None;
                    },
                },
                None => {
                    return None;
                },
            }
        };
        let label = match value.get("label") {
            Some(v) => match v.as_text() {
                Some(label) => label.clone(),
                None => {
                    return None;
                },
            },
            None => {
                return None;
            },
        };
        let emoji = match value.get("emoji") {
            Some(held) => match ReactionType::from_json(held) {
                Some(e) => Some(e),
                None => {
                    return None;
                },
            },
            None => None,
        };
        let disabled = match value.get("disabled") {
            Some(v) => match v.as_bool() {
                Some(b) => b,
                None => false,
            },
            None => false,
        };
        Some(Button { kind: ComponentType::from(kind as u8), data, label, emoji, disabled })
    }
}

impl CreateButton {
    /// The button as JSON.
    pub open spec fn json(&self) -> Json {
        self.0.json()
    }

    /// Writes the button as JSON.
    pub fn to_json(&self) -> (r: Value)
        ensures
            r@ == self.json(),
    {
        self.0.to_json()
    }
}

impl CreateSelectMenuOption {
    /// The option as JSON.
    pub open spec fn json(&self) -> Json {
        Json::Object(
            seq![("label"@, Json::Text(self.label@)), ("value"@, Json::Text(self.value@))]
                + optional("description"@, text_json(self.description)) + optional(
                "emoji"@,
                emoji_json(self.emoji),
            ) + optional("default"@, bool_json(self.default)),
        )
    }

    /// Writes the option as JSON.
    pub fn to_json(&self) -> (r: Value)
        ensures
            r@ == self.json(),
    {
        let mut object = ObjectWriter::new();
        object.put("label", Value::String(self.label.clone()));
        object.put("value", Value::String(self.value.clone()));
        object.put_text("description", &self.description);
        object.put_optional("emoji", write_emoji(&self.emoji));
        object.put_bool("default", self.default);
        assert(object@ =~= self.json()->Object_0);
        object.finish()
    }
}

/// The options as JSON values.
pub open spec fn options_json(options: Seq<CreateSelectMenuOption>) -> Seq<Json> {
    options.map_values(|o: CreateSelectMenuOption| o.json())
}

impl CreateSelectMenu {
    /// The menu as JSON.
    pub open spec fn json(&self) -> Json {
        Json::Object(
            seq![("custom_id"@, Json::Text(self.custom_id@))] + optional(
                "placeholder"@,
                text_json(self.placeholder),
            ) + optional("min_values"@, number_json(self.min_values)) + optional(
                "max_values"@,
                number_json(self.max_values),
            ) + optional("disabled"@, bool_json(self.disabled)) + seq![
                ("options"@, Json::Array(options_json(self.options@))),
                ("type"@, Json::Number(self.kind as u64)),
            ],
        )
    }

    /// Writes the menu as JSON.
    pub fn to_json(&self) -> (r: Value)
        ensures
            r@ == self.json(),
    {
        let mut options: Vec<Value> = Vec::new();
        let mut i: usize = 0;
        while i < self.options.len()
            invariant
                i <= self.options.len(),
                options@.len() == i,
                forall|k: int| 0 <= k < i ==> (#[trigger] options@[k])@ == self.options@[k].json(),
            decreases self.options.len() - i,
        {
            options.push(self.options[i].to_json());
            i = i + 1;
        }
        assert(items_view(options@) =~= options_json(self.options@));
        let mut object = ObjectWriter::new();
        object.put("custom_id", Value::String(self.custom_id.clone()));
        object.put_text("placeholder", &self.placeholder);
        object.put_number("min_values", self.min_values);
        object.put_number("max_values", self.max_values);
        object.put_bool("disabled", self.disabled);
        object.put("options", Value::array(options));
        object.put("type", Value::Number(self.kind as u64));
        assert(object@ =~= self.json()->Object_0);
        object.finish()
    }
}

impl CreateInputText {
    /// The text input as JSON.
    pub open spec fn json(&self) -> Json {
        Json::Object(
            seq![
                ("style"@, Json::Number(input_style_number(self.style))),
                ("label"@, Json::Text(self.label@)),
                ("custom_id"@, Json::Text(self.custom_id@)),
            ] + optional("placeholder"@, text_json(self.placeholder)) + optional(
                "min_length"@,
                number_json(self.min_length),
            ) + optional("max_length"@, number_json(self.max_length)) + optional(
                "value"@,
                text_json(self.value),
            ) + optional("required"@, bool_json(self.required)) + seq![
                ("type"@, Json::Number(self.kind as u64)),
            ],
        )
    }

    /// Writes the text input as JSON.
    pub fn to_json(&self) -> (r: Value)
        ensures
            r@ == self.json(),
    {
        let mut object = ObjectWriter::new();
        object.put("style", Value::Number(u8::from(self.style) as u64));
        object.put("label", Value::String(self.label.clone()));
        object.put("custom_id", Value::String(self.custom_id.clone()));
        object.put_text("placeholder", &self.placeholder);
        object.put_number("min_length", self.min_length);
        object.put_number("max_length", self.max_length);
        object.put_text("value", &self.value);
        object.put_bool("required", self.required);
        object.put("type", Value::Number(self.kind as u64));
        assert(object@ =~= self.json()->Object_0);
        object.finish()
    }
}

/// The buttons as JSON values.
pub open spec fn buttons_json(buttons: Seq<CreateButton>) -> Seq<Json> {
    buttons.map_values(|b: CreateButton| b.json())
}

impl CreateActionRow {
    /// The components of the row as JSON values: the buttons, or the one menu, or
    /// the one text input.
    pub open spec fn components_json(&self) -> Seq<Json> {
        match self {
            CreateActionRow::Buttons(buttons) => buttons_json(buttons@),
            CreateActionRow::SelectMenu(menu) => seq![menu.json()],
            CreateActionRow::InputText(input) => seq![input.json()],
        }
    }

    /// The row as JSON: the kind 1 and the components.
    pub open spec fn json(&self) -> Json {
        Json::Object(
            seq![
                ("type"@, Json::Number(1)),
                ("components"@, Json::Array(self.components_json())),
            ],
        )
    }

    /// Writes the row as JSON.
    pub fn to_json(&self) -> (r: Value)
        ensures
            r@ == self.json(),
    {
        let mut components: Vec<Value> = Vec::new();
        match self {
            CreateActionRow::Buttons(buttons) => {
                let mut i: usize = 0;
                while i < buttons.len()
                    invariant
                        i <= buttons.len(),
                        components@.len() == i,
                        forall|k: int|
                            0 <= k < i ==> (#[trigger] components@[k])@ == buttons@[k].json(),
                    decreases buttons.len() - i,
                {
                    components.push(buttons[i].to_json());
                    i = i + 1;
                }
                assert(items_view(components@) =~= buttons_json(buttons@));
            },
            CreateActionRow::SelectMenu(menu) => {
                components.push(menu.to_json());
                assert(items_view(components@) =~= seq![menu.json()]);
            },
            CreateActionRow::InputText(input) => {
                components.push(input.to_json());
                assert(items_view(components@) =~= seq![input.json()]);
            },
        }
        let mut object = ObjectWriter::new();
        object.put("type", Value::Number(1));
        object.put("components", Value::array(components));
        assert(object@ =~= self.json()->Object_0);
        object.finish()
    }
}

/// The rows as JSON values.
pub open spec fn rows_json(rows: Seq<CreateActionRow>) -> Seq<Json> {
    rows.map_values(|r: CreateActionRow| r.json())
}

impl CreateComponents {
    /// The rows as JSON: a list of them.
    pub open spec fn json(&self) -> Json {
        Json::Array(rows_json(self.0@))
    }

    /// Writes the rows as JSON.
    pub fn to_json(&self) -> (r: Value)
        ensures
            r@ == self.json(),
    {
        let mut rows: Vec<Value> = Vec::new();
        let mut i: usize = 0;
        while i < self.0.len()
            invariant
                i <= self.0.len(),
                rows@.len() == i,
                forall|k: int| 0 <= k < i ==> (#[trigger] rows@[k])@ == self.0@[k].json(),
            decreases self.0.len() - i,
        {
            rows.push(self.0[i].to_json());
            i = i + 1;
        }
        assert(items_view(rows@) =~= rows_json(self.0@));
        Value::array(rows)
    }
}

} // verus!
