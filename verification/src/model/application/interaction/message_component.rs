//! Interactions with a component of a message.

use vstd::prelude::*;
use crate::model::channel::Message;
use crate::model::guild::Member;
use crate::model::id::{
    ApplicationId,
    ChannelId,
    GenericId,
    GuildId,
    InteractionId,
    RoleId,
    UserId,
};
use crate::model::permissions::Permissions;
use crate::model::user::User;

verus! {

/// A user's press of a button or choice in a select menu.
#[derive(Debug, PartialEq, Eq)]
pub struct ComponentInteraction {
    pub id: InteractionId,
    /// The application the interaction is for.
    pub application_id: ApplicationId,
    /// Which component was used, and what was chosen.
    pub data: ComponentInteractionData,
    /// The guild the interaction comes from, if it comes from one.
    pub guild_id: Option<GuildId>,
    pub channel_id: ChannelId,
    /// The user as a member; present where the interaction comes from a guild.
    pub member: Option<Member>,
    pub user: User,
    /// The token to answer the interaction with.
    pub token: String,
    /// Always 1.
    pub version: u8,
    /// The message the component belongs to.
    pub message: Box<Message>,
    /// What the application may do in the channel.
    pub app_permissions: Option<Permissions>,
    /// The user's language.
    pub locale: String,
    /// The guild's preferred language.
    pub guild_locale: Option<String>,
}

impl ComponentInteraction {
    /// Whether two interactions hold the same values, lists compared item by item.
    pub open spec fn same(&self, other: &ComponentInteraction) -> bool {
        &&& self.id == other.id
        &&& self.application_id == other.application_id
        &&& self.data.same(&other.data)
        &&& self.guild_id == other.guild_id
        &&& self.channel_id == other.channel_id
        &&& self.member == other.member
        &&& self.user == other.user
        &&& self.token == other.token
        &&& self.version == other.version
        &&& *self.message == *other.message
        &&& self.app_permissions == other.app_permissions
        &&& self.locale == other.locale
        &&& self.guild_locale == other.guild_locale
    }
}

impl Clone for ComponentInteraction {
    fn clone(&self) -> (r: Self)
        ensures
            self.same(&r),
    {
        ComponentInteraction {
            id: self.id,
            application_id: self.application_id,
            data: self.data.clone(),
            guild_id: self.guild_id,
            channel_id: self.channel_id,
            member: self.member.clone(),
            user: self.user.clone(),
            token: self.token.clone(),
            version: self.version,
            message: Box::new((*self.message).clone()),
            app_permissions: self.app_permissions,
            locale: self.locale.clone(),
            guild_locale: self.guild_locale.clone(),
        }
    }
}

/// What was chosen, by kind of component.
#[derive(Debug, PartialEq, Eq)]
pub enum ComponentInteractionDataKind {
    Button,
    StringSelect { values: Vec<String> },
    UserSelect { values: Vec<UserId> },
    RoleSelect { values: Vec<RoleId> },
    MentionableSelect { values: Vec<GenericId> },
    ChannelSelect { values: Vec<ChannelId> },
    Unknown(u8),
}

impl ComponentInteractionDataKind {
    /// Whether two choices are of one kind and hold the same values in the same order.
    pub open spec fn same(&self, other: &ComponentInteractionDataKind) -> bool {
        match (*self, *other) {
            (ComponentInteractionDataKind::Button, ComponentInteractionDataKind::Button) => true,
            (
                ComponentInteractionDataKind::StringSelect { values: a },
                ComponentInteractionDataKind::StringSelect { values: b },
            ) => a@ == b@,
            (
                ComponentInteractionDataKind::UserSelect { values: a },
                ComponentInteractionDataKind::UserSelect { values: b },
            ) => a@ == b@,
            (
                ComponentInteractionDataKind::RoleSelect { values: a },
                ComponentInteractionDataKind::RoleSelect { values: b },
            ) => a@ == b@,
            (
                ComponentInteractionDataKind::MentionableSelect { values: a },
                ComponentInteractionDataKind::MentionableSelect { values: b },
            ) => a@ == b@,
            (
                ComponentInteractionDataKind::ChannelSelect { values: a },
                ComponentInteractionDataKind::ChannelSelect { values: b },
            ) => a@ == b@,
            (
                ComponentInteractionDataKind::Unknown(a),
                ComponentInteractionDataKind::Unknown(b),
            ) => a == b,
            _ => false,
        }
    }
}

impl Clone for ComponentInteractionDataKind {
    fn clone(&self) -> (r: Self)
        ensures
            self.same(&r),
    {
        match self {
            ComponentInteractionDataKind::Button => ComponentInteractionDataKind::Button,
            ComponentInteractionDataKind::StringSelect { values } => {
                ComponentInteractionDataKind::StringSelect { values: values.clone() }
            },
            ComponentInteractionDataKind::UserSelect { values } => {
                ComponentInteractionDataKind::UserSelect { values: values.clone() }
            },
            ComponentInteractionDataKind::RoleSelect { values } => {
                ComponentInteractionDataKind::RoleSelect { values: values.clone() }
            },
            ComponentInteractionDataKind::MentionableSelect { values } => {
                ComponentInteractionDataKind::MentionableSelect { values: values.clone() }
            },
            ComponentInteractionDataKind::ChannelSelect { values } => {
                ComponentInteractionDataKind::ChannelSelect { values: values.clone() }
            },
            ComponentInteractionDataKind::Unknown(unknown) => {
                ComponentInteractionDataKind::Unknown(*unknown)
            },
        }
    }
}

/// Which component an interaction used, and what was chosen.
#[derive(Debug, PartialEq, Eq)]
pub struct ComponentInteractionData {
    /// The identifier the developer gave the component.
    pub custom_id: String,
    pub kind: ComponentInteractionDataKind,
}

impl ComponentInteractionData {
    /// Whether two values name the same component and the same choice.
    pub open spec fn same(&self, other: &ComponentInteractionData) -> bool {
        &&& self.custom_id == other.custom_id
        &&& self.kind.same(&other.kind)
    }
}

impl Clone for ComponentInteractionData {
    fn clone(&self) -> (r: Self)
        ensures
            self.same(&r),
    {
        ComponentInteractionData { custom_id: self.custom_id.clone(), kind: self.kind.clone() }
    }
}

} // verus!
