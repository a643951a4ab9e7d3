//! Interactions: what a user does with a command, a component or a modal.

pub mod message_component;
pub mod modal;

use vstd::prelude::*;
use crate::model::application::interaction::message_component::ComponentInteraction;
use crate::model::application::interaction::modal::ModalSubmitInteraction;
use crate::model::id::{ApplicationId, ChannelId, CommandId, GuildId, InteractionId};
use crate::model::user::User;

verus! {

/// The gateway's check that an interaction endpoint answers.
#[derive(Clone, Copy, Debug, PartialEq, Eq)]
pub struct PingInteraction {
    pub id: InteractionId,
    pub application_id: ApplicationId,
}

/// The use of an application command, or a request to complete one.
#[derive(Debug, PartialEq, Eq)]
pub struct CommandInteraction {
    pub id: InteractionId,
    pub application_id: ApplicationId,
    pub command_id: CommandId,
    /// The command's name.
    pub name: String,
    pub guild_id: Option<GuildId>,
    pub channel_id: ChannelId,
    pub user: User,
    /// The token to answer the interaction with.
    pub token: String,
}

impl Clone for CommandInteraction {
    fn clone(&self) -> (r: Self)
        ensures
            r == *self,
    {
        CommandInteraction {
            id: self.id,
            application_id: self.application_id,
            command_id: self.command_id,
            name: self.name.clone(),
            guild_id: self.guild_id,
            channel_id: self.channel_id,
            user: self.user.clone(),
            token: self.token.clone(),
        }
    }
}

/// An interaction of any kind.
#[derive(Debug, PartialEq, Eq)]
pub enum Interaction {
    Ping(PingInteraction),
    Command(CommandInteraction),
    Autocomplete(CommandInteraction),
    Component(ComponentInteraction),
    ModalSubmit(ModalSubmitInteraction),
}

impl Interaction {
    /// Whether two interactions hold the same values, lists compared item by item.
    pub open spec fn same(&self, other: &Interaction) -> bool {
        match (*self, *other) {
            (Interaction::Ping(a), Interaction::Ping(b)) => a == b,
            (Interaction::Command(a), Interaction::Command(b)) => a == b,
            (Interaction::Autocomplete(a), Interaction::Autocomplete(b)) => a == b,
            (Interaction::Component(a), Interaction::Component(b)) => a.same(&b),
            (Interaction::ModalSubmit(a), Interaction::ModalSubmit(b)) => a.same(&b),
            _ => false,
        }
    }
}

impl Clone for Interaction {
    fn clone(&self) -> (r: Self)
        ensures
            self.same(&r),
    {
        match self {
            Interaction::Ping(i) => Interaction::Ping(*i),
            Interaction::Command(i) => Interaction::Command(i.clone()),
            Interaction::Autocomplete(i) => Interaction::Autocomplete(i.clone()),
            Interaction::Component(i) => Interaction::Component(i.clone()),
            Interaction::ModalSubmit(i) => Interaction::ModalSubmit(i.clone()),
        }
    }
}

} // verus!
