//! Builders of message components: rows of buttons, select menus and text inputs.

use vstd::prelude::*;
use crate::model::application::component::{
    Button,
    ButtonKind,
    ButtonStyle,
    ComponentType,
    InputTextStyle,
};
use crate::model::channel::ReactionType;

verus! {

/// A builder of the rows of components under a message.
#[derive(Clone, Debug, PartialEq, Eq)]
pub struct CreateComponents(pub Vec<CreateActionRow>);

impl CreateComponents {
    /// The builder with no row.
    pub fn new() -> (r: Self)
        ensures
            r.0@ == Seq::<CreateActionRow>::empty(),
    {
        CreateComponents(Vec::new())
    }

    /// Adds a row behind the rows that are there.
    pub fn add_action_row(self, row: CreateActionRow) -> (r: Self)
        ensures
            r.0@ == self.0@.push(row),
    {
        let mut rows = self.0;
        rows.push(row);
        CreateComponents(rows)
    }

    /// Adds rows, in their order, behind the rows that are there.
    pub fn add_action_rows(self, rows: Vec<CreateActionRow>) -> (r: Self)
        ensures
            r.0@ == self.0@ + rows@,
    {
        let mut all = self.0;
        let mut rows = rows;
        all.append(&mut rows);
        CreateComponents(all)
    }

    /// Puts one row in place of all rows that are there.
    pub fn set_action_row(self, row: CreateActionRow) -> (r: Self)
        ensures
            r.0@ == seq![row],
    {
        let mut rows: Vec<CreateActionRow> = Vec::new();
        rows.push(row);
        assert(rows@ =~= seq![row]);
        CreateComponents(rows)
    }

    /// Puts the given rows in place of all rows that are there.
    pub fn set_action_rows(self, rows: Vec<CreateActionRow>) -> (r: Self)
        ensures
            r.0 == rows,
    {
        CreateComponents(rows)
    }
}

impl Default for CreateComponents {
    fn default() -> (r: Self)
        ensures
            r.0@ == Seq::<CreateActionRow>::empty(),
    {
        CreateComponents::new()
    }
}

/// A builder of one row of components.
#[derive(Clone, Debug, PartialEq, Eq)]
pub enum CreateActionRow {
    Buttons(Vec<CreateButton>),
    SelectMenu(CreateSelectMenu),
    /// A text input, which the platform takes in modals only.
    InputText(CreateInputText),
}

/// A builder of a button.
#[derive(Clone, Debug, PartialEq, Eq)]
pub struct CreateButton(pub Button);

impl CreateButton {
    /// A button that opens the address `url`.
    pub fn new_link(label: &str, url: &str) -> (r: Self)
        ensures
            r.0.kind == ComponentType::Button,
            r.0.data matches ButtonKind::Link { url: set } && set@ == url@,
            r.0.label@ == label@,
            r.0.emoji is None,
            !r.0.disabled,
    {
        CreateButton(
            Button {
                kind: ComponentType::Button,
                data: ButtonKind::Link { url: url.to_owned() },
                label: label.to_owned(),
                emoji: None,
                disabled: false,
            },
        )
    }

    /// A button of the given look that sends an interaction with `custom_id`.
    pub fn new(label: &str, style: ButtonStyle, custom_id: &str) -> (r: Self)
        ensures
            r.0.kind == ComponentType::Button,
            r.0.data matches ButtonKind::NonLink { custom_id: set, style: look } && set@
                == custom_id@ && look == style,
            r.0.label@ == label@,
            r.0.emoji is None,
            !r.0.disabled,
    {
        CreateButton(
            Button {
                kind: ComponentType::Button,
                data: ButtonKind::NonLink { style, custom_id: custom_id.to_owned() },
                label: label.to_owned(),
                emoji: None,
                disabled: false,
            },
        )
    }

    /// Sets the text on the button.
    pub fn label(self, label: &str) -> (r: Self)
        ensures
            r.0.label@ == label@,
            r.0 == (Button { label: r.0.label, ..self.0 }),
    {
        CreateButton(Button { label: label.to_owned(), ..self.0 })
    }

    /// Sets the emoji on the button.
    pub fn emoji(self, emoji: ReactionType) -> (r: Self)
        ensures
            r.0 == (Button { emoji: Some(emoji), ..self.0 }),
    {
        CreateButton(Button { emoji: Some(emoji), ..self.0 })
    }

    /// Sets whether the button is disabled.
    pub fn disabled(self, disabled: bool) -> (r: Self)
        ensures
            r.0 == (Button { disabled: disabled, ..self.0 }),
    {
        CreateButton(Button { disabled: disabled, ..self.0 })
    }
}

/// A builder of a select menu.
#[derive(Clone, Debug, PartialEq, Eq)]
pub struct CreateSelectMenu {
    pub custom_id: String,
    pub placeholder: Option<String>,
    pub min_values: Option<u64>,
    pub max_values: Option<u64>,
    pub disabled: Option<bool>,
    pub options: Vec<CreateSelectMenuOption>,
    /// The number of the component's kind: 3, a menu of strings.
    pub kind: u8,
}

impl CreateSelectMenu {
    /// A menu with the identifier `custom_id` and the given options, and nothing
    /// else set.
    pub fn new(custom_id: &str, options: Vec<CreateSelectMenuOption>) -> (r: Self)
        ensures
            r.custom_id@ == custom_id@,
            r.placeholder is None,
            r.min_values is None,
            r.max_values is None,
            r.disabled is None,
            r.options == options,
            r.kind == 3,
    {
        CreateSelectMenu {
            custom_id: custom_id.to_owned(),
            placeholder: None,
            min_values: None,
            max_values: None,
            disabled: None,
            options,
            kind: 3,
        }
    }

    /// Sets the text shown while nothing is chosen.
    pub fn placeholder(self, label: &str) -> (r: Self)
        ensures
            r.placeholder matches Some(set) && set@ == label@,
            r == (CreateSelectMenu { placeholder: r.placeholder, ..self }),
    {
        CreateSelectMenu { placeholder: Some(label.to_owned()), ..self }
    }

    /// Sets the identifier that the developer gives the menu.
    pub fn custom_id(self, id: &str) -> (r: Self)
        ensures
            r.custom_id@ == id@,
            r == (CreateSelectMenu { custom_id: r.custom_id, ..self }),
    {
        CreateSelectMenu { custom_id: id.to_owned(), ..self }
    }

    /// Sets how many options the user must choose at least.
    pub fn min_values(self, min: u64) -> (r: Self)
        ensures
            r == (CreateSelectMenu { min_values: Some(min), ..self }),
    {
        CreateSelectMenu { min_values: Some(min), ..self }
    }

    /// Sets how many options the user may choose at most.
    pub fn max_values(self, max: u64) -> (r: Self)
        ensures
            r == (CreateSelectMenu { max_values: Some(max), ..self }),
    {
        CreateSelectMenu { max_values: Some(max), ..self }
    }

    /// Sets whether the menu is disabled.
    pub fn disabled(self, disabled: bool) -> (r: Self)
        ensures
            r == (CreateSelectMenu { disabled: Some(disabled), ..self }),
    {
        CreateSelectMenu { disabled: Some(disabled), ..self }
    }

    /// Puts the given options in place of those that are there.
    pub fn options(self, options: Vec<CreateSelectMenuOption>) -> (r: Self)
        ensures
            r == (CreateSelectMenu { options: options, ..self }),
    {
        CreateSelectMenu { options: options, ..self }
    }
}

/// A builder of one option of a select menu.
#[derive(Clone, Debug, PartialEq, Eq)]
pub struct CreateSelectMenuOption {
    pub label: String,
    pub value: String,
    pub description: Option<String>,
    pub emoji: Option<ReactionType>,
    pub default: Option<bool>,
}

impl CreateSelectMenuOption {
    /// An option with the given text and value, and nothing else set.
    pub fn new(label: &str, value: &str) -> (r: Self)
        ensures
            r.label@ == label@,
            r.value@ == value@,
            r.description is None,
            r.emoji is None,
            r.default is None,
    {
        CreateSelectMenuOption {
            label: label.to_owned(),
            value: value.to_owned(),
            description: None,
            emoji: None,
            default: None,
        }
    }

    /// Sets the text shown for the option.
    pub fn label(self, label: &str) -> (r: Self)
        ensures
            r.label@ == label@,
            r == (CreateSelectMenuOption { label: r.label, ..self }),
    {
        CreateSelectMenuOption { label: label.to_owned(), ..self }
    }

    /// Sets the value sent when the option is chosen.
    pub fn value(self, value: &str) -> (r: Self)
        ensures
            r.value@ == value@,
            r == (CreateSelectMenuOption { value: r.value, ..self }),
    {
        CreateSelectMenuOption { value: value.to_owned(), ..self }
    }

    /// Sets the description shown under the option.
    pub fn description(self, description: &str) -> (r: Self)
        ensures
            r.description matches Some(set) && set@ == description@,
            r == (CreateSelectMenuOption { description: r.description, ..self }),
    {
        CreateSelectMenuOption { description: Some(description.to_owned()), ..self }
    }

    /// Sets the emoji shown beside the option.
    pub fn emoji(self, emoji: ReactionType) -> (r: Self)
        ensures
            r == (CreateSelectMenuOption { emoji: Some(emoji), ..self }),
    {
        CreateSelectMenuOption { emoji: Some(emoji), ..self }
    }

    /// Sets whether the option is chosen from the start.
    pub fn default_selection(self, default: bool) -> (r: Self)
        ensures
            r == (CreateSelectMenuOption { default: Some(default), ..self }),
    {
        CreateSelectMenuOption { default: Some(default), ..self }
    }
}

/// A builder of a text input.
#[derive(Clone, Debug, PartialEq, Eq)]
pub struct CreateInputText {
    pub style: InputTextStyle,
    pub label: String,
    pub custom_id: String,
    pub placeholder: Option<String>,
    pub min_length: Option<u64>,
    pub max_length: Option<u64>,
    pub value: Option<String>,
    pub required: Option<bool>,
    /// The number of the component's kind: 4, a text input.
    pub kind: u8,
}

impl CreateInputText {
    /// A text input of the given size, with the given label and identifier, and
    /// nothing else set.
    pub fn new(style: InputTextStyle, label: &str, custom_id: &str) -> (r: Self)
        ensures
            r.style == style,
            r.label@ == label@,
            r.custom_id@ == custom_id@,
            r.placeholder is None,
            r.min_length is None,
            r.max_length is None,
            r.value is None,
            r.required is None,
            r.kind == 4,
    {
        CreateInputText {
            style,
            label: label.to_owned(),
            custom_id: custom_id.to_owned(),
            placeholder: None,
            min_length: None,
            max_length: None,
            value: None,
            required: None,
            kind: 4,
        }
    }

    /// Sets the size of the input.
    pub fn style(self, kind: InputTextStyle) -> (r: Self)
        ensures
            r == (CreateInputText { style: kind, ..self }),
    {
        CreateInputText { style: kind, ..self }
    }

    /// Sets the label of the input.
    pub fn label(self, label: &str) -> (r: Self)
        ensures
            r.label@ == label@,
            r == (CreateInputText { label: r.label, ..self }),
    {
        CreateInputText { label: label.to_owned(), ..self }
    }

    /// Sets the identifier that the developer gives the input.
    pub fn custom_id(self, id: &str) -> (r: Self)
        ensures
            r.custom_id@ == id@,
            r == (CreateInputText { custom_id: r.custom_id, ..self }),
    {
        CreateInputText { custom_id: id.to_owned(), ..self }
    }

    /// Sets the text shown while the input is empty.
    pub fn placeholder(self, label: &str) -> (r: Self)
        ensures
            r.placeholder matches Some(set) && set@ == label@,
            r == (CreateInputText { placeholder: r.placeholder, ..self }),
    {
        CreateInputText { placeholder: Some(label.to_owned()), ..self }
    }

    /// Sets how many characters the user must type at least.
    pub fn min_length(self, min: u64) -> (r: Self)
        ensures
            r == (CreateInputText { min_length: Some(min), ..self }),
    {
        CreateInputText { min_length: Some(min), ..self }
    }

    /// Sets how many characters the user may type at most.
    pub fn max_length(self, max: u64) -> (r: Self)
        ensures
            r == (CreateInputText { max_length: Some(max), ..self }),
    {
        CreateInputText { max_length: Some(max), ..self }
    }

    /// Sets the text that the input starts with.
    pub fn value(self, value: &str) -> (r: Self)
        ensures
            r.value matches Some(set) && set@ == value@,
            r == (CreateInputText { value: r.value, ..self }),
    {
        CreateInputText { value: Some(value.to_owned()), ..self }
    }

    /// Sets whether the input must be filled in.
    pub fn required(self, required: bool) -> (r: Self)
        ensures
            r == (CreateInputText { required: Some(required), ..self }),
    {
        CreateInputText { required: Some(required), ..self }
    }
}

} // verus!
