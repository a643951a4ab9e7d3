//! Message components: buttons, select menus and text inputs, in rows.

use vstd::prelude::*;
use crate::model::channel::ReactionType;

verus! {

/// The kind of a component.
#[derive(Clone, Copy, Debug, PartialEq, Eq, Structural, Hash)]
pub enum ComponentType {
    ActionRow,
    Button,
    StringSelect,
    InputText,
    UserSelect,
    RoleSelect,
    MentionableSelect,
    ChannelSelect,
    /// A number that this library has no name for.
    Unknown(u8),
}

impl From<u8> for ComponentType {
    fn from(value: u8) -> (r: Self) {
        match value {
            1 => ComponentType::ActionRow,
            2 => ComponentType::Button,
            3 => ComponentType::StringSelect,
            4 => ComponentType::InputText,
            5 => ComponentType::UserSelect,
            6 => ComponentType::RoleSelect,
            7 => ComponentType::MentionableSelect,
            8 => ComponentType::ChannelSelect,
            _ => ComponentType::Unknown(value),
        }
    }
}

impl vstd::std_specs::convert::FromSpecImpl<u8> for ComponentType {
    open spec fn obeys_from_spec() -> bool {
        true
    }

    open spec fn from_spec(value: u8) -> Self {
        match value {
            1 => ComponentType::ActionRow,
            2 => ComponentType::Button,
            3 => ComponentType::StringSelect,
            4 => ComponentType::InputText,
            5 => ComponentType::UserSelect,
            6 => ComponentType::RoleSelect,
            7 => ComponentType::MentionableSelect,
            8 => ComponentType::ChannelSelect,
            _ => ComponentType::Unknown(value),
        }
    }
}

impl From<ComponentType> for u8 {
    fn from(value: ComponentType) -> (r: Self) {
        match value {
            ComponentType::ActionRow => 1,
            ComponentType::Button => 2,
            ComponentType::StringSelect => 3,
            ComponentType::InputText => 4,
            ComponentType::UserSelect => 5,
            ComponentType::RoleSelect => 6,
            ComponentType::MentionableSelect => 7,
            ComponentType::ChannelSelect => 8,
            ComponentType::Unknown(unknown) => unknown,
        }
    }
}

impl vstd::std_specs::convert::FromSpecImpl<ComponentType> for u8 {
    open spec fn obeys_from_spec() -> bool {
        true
    }

    open spec fn from_spec(value: ComponentType) -> Self {
        match value {
            ComponentType::ActionRow => 1,
            ComponentType::Button => 2,
            ComponentType::StringSelect => 3,
            ComponentType::InputText => 4,
            ComponentType::UserSelect => 5,
            ComponentType::RoleSelect => 6,
            ComponentType::MentionableSelect => 7,
            ComponentType::ChannelSelect => 8,
            ComponentType::Unknown(unknown) => unknown,
        }
    }
}

/// A row of components.
#[derive(Clone, Debug, PartialEq, Eq)]
pub struct ActionRow {
    /// Always [`ComponentType::ActionRow`].
    pub kind: ComponentType,
    pub components: Vec<ActionRowComponent>,
}

/// A component that can stand in a row.
#[derive(Clone, Debug, PartialEq, Eq)]
pub enum ActionRowComponent {
    Button(Button),
    SelectMenu(SelectMenu),
    InputText(InputText),
}

impl From<Button> for ActionRowComponent {
    fn from(component: Button) -> (r: Self) {
        ActionRowComponent::Button(component)
    }
}

impl vstd::std_specs::convert::FromSpecImpl<Button> for ActionRowComponent {
    open spec fn obeys_from_spec() -> bool {
        true
    }

    open spec fn from_spec(component: Button) -> Self {
        ActionRowComponent::Button(component)
    }
}

impl From<SelectMenu> for ActionRowComponent {
    fn from(component: SelectMenu) -> (r: Self) {
        ActionRowComponent::SelectMenu(component)
    }
}

impl vstd::std_specs::convert::FromSpecImpl<SelectMenu> for ActionRowComponent {
    open spec fn obeys_from_spec() -> bool {
        true
    }

    open spec fn from_spec(component: SelectMenu) -> Self {
        ActionRowComponent::SelectMenu(component)
    }
}

/// What a button does when pressed.
#[derive(Clone, Debug, PartialEq, Eq)]
pub enum ButtonKind {
    /// Opens the address.
    Link { url: String },
    /// Sends an interaction that carries the identifier.
    NonLink { custom_id: String, style: ButtonStyle },
}

/// A button.
#[derive(Clone, Debug, PartialEq, Eq)]
pub struct Button {
    /// Always [`ComponentType::Button`].
    pub kind: ComponentType,
    pub data: ButtonKind,
    /// The text on the button.
    pub label: String,
    pub emoji: Option<ReactionType>,
    pub disabled: bool,
}

/// The look of a button that is no link.
#[derive(Clone, Copy, Debug, PartialEq, Eq, Structural, Hash)]
pub enum ButtonStyle {
    Primary,
    Secondary,
    Success,
    Danger,
    /// A number that this library has no name for.
    Unknown(u8),
}

impl From<u8> for ButtonStyle {
    fn from(value: u8) -> (r: Self) {
        match value {
            1 => ButtonStyle::Primary,
            2 => ButtonStyle::Secondary,
            3 => ButtonStyle::Success,
            4 => ButtonStyle::Danger,
            _ => ButtonStyle::Unknown(value),
        }
    }
}

impl vstd::std_specs::convert::FromSpecImpl<u8> for ButtonStyle {
    open spec fn obeys_from_spec() -> bool {
        true
    }

    open spec fn from_spec(value: u8) -> Self {
        match value {
            1 => ButtonStyle::Primary,
            2 => ButtonStyle::Secondary,
            3 => ButtonStyle::Success,
            4 => ButtonStyle::Danger,
            _ => ButtonStyle::Unknown(value),
        }
    }
}

impl From<ButtonStyle> for u8 {
    fn from(value: ButtonStyle) -> (r: Self) {
        match value {
            ButtonStyle::Primary => 1,
            ButtonStyle::Secondary => 2,
            ButtonStyle::Success => 3,
            ButtonStyle::Danger => 4,
            ButtonStyle::Unknown(unknown) => unknown,
        }
    }
}

impl vstd::std_specs::convert::FromSpecImpl<ButtonStyle> for u8 {
    open spec fn obeys_from_spec() -> bool {
        true
    }

    open spec fn from_spec(value: ButtonStyle) -> Self {
        match value {
            ButtonStyle::Primary => 1,
            ButtonStyle::Secondary => 2,
            ButtonStyle::Success => 3,
            ButtonStyle::Danger => 4,
            ButtonStyle::Unknown(unknown) => unknown,
        }
    }
}

/// A select menu.
#[derive(Clone, Debug, PartialEq, Eq)]
pub struct SelectMenu {
    /// One of the select kinds of [`ComponentType`].
    pub kind: ComponentType,
    /// The text shown while nothing is chosen.
    pub placeholder: Option<String>,
    /// The identifier the developer gave the menu.
    pub custom_id: Option<String>,
    pub min_values: Option<u64>,
    pub max_values: Option<u64>,
    pub options: Vec<SelectMenuOption>,
    /// What was chosen, where the menu comes back from a modal.
    pub values: Vec<String>,
}

/// One option of a select menu.
#[derive(Clone, Debug, PartialEq, Eq)]
pub struct SelectMenuOption {
    /// The text shown for the option.
    pub label: String,
    /// The value sent when the option is chosen.
    pub value: String,
    pub description: Option<String>,
    pub emoji: Option<ReactionType>,
    /// Whether the option is chosen from the start.
    pub default: bool,
}

/// A text input of a modal, as it comes back filled in.
#[derive(Debug, PartialEq, Eq)]
pub struct InputText {
    /// Always [`ComponentType::InputText`].
    pub kind: ComponentType,
    /// The identifier the developer gave the input.
    pub custom_id: String,
    /// What the user typed.
    pub value: String,
}

impl Clone for InputText {
    fn clone(&self) -> (r: Self)
        ensures
            r == *self,
    {
        InputText {
            kind: self.kind,
            custom_id: self.custom_id.clone(),
            value: self.value.clone(),
        }
    }
}

/// The size of a text input.
#[derive(Clone, Copy, Debug, PartialEq, Eq, Structural, Hash)]
pub enum InputTextStyle {
    Short,
    Paragraph,
    /// A number that this library has no name for.
    Unknown(u8),
}

impl From<u8> for InputTextStyle {
    fn from(value: u8) -> (r: Self) {
        match value {
            1 => InputTextStyle::Short,
            2 => InputTextStyle::Paragraph,
            _ => InputTextStyle::Unknown(value),
        }
    }
}

impl vstd::std_specs::convert::FromSpecImpl<u8> for InputTextStyle {
    open spec fn obeys_from_spec() -> bool {
        true
    }

    open spec fn from_spec(value: u8) -> Self {
        match value {
            1 => InputTextStyle::Short,
            2 => InputTextStyle::Paragraph,
            _ => InputTextStyle::Unknown(value),
        }
    }
}

impl From<InputTextStyle> for u8 {
    fn from(value: InputTextStyle) -> (r: Self) {
        match value {
            InputTextStyle::Short => 1,
            InputTextStyle::Paragraph => 2,
            InputTextStyle::Unknown(unknown) => unknown,
        }
    }
}

impl vstd::std_specs::convert::FromSpecImpl<InputTextStyle> for u8 {
    open spec fn obeys_from_spec() -> bool {
        true
    }

    open spec fn from_spec(value: InputTextStyle) -> Self {
        match value {
            InputTextStyle::Short => 1,
            InputTextStyle::Paragraph => 2,
            InputTextStyle::Unknown(unknown) => unknown,
        }
    }
}

} // verus!
