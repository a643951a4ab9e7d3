//! Interactions that hand in a filled modal.

use vstd::prelude::*;
use crate::model::application::component::InputText;
use crate::model::channel::Message;
use crate::model::id::{ApplicationId, ChannelId, GuildId, InteractionId};
use crate::model::user::User;

verus! {

/// A user's submission of a modal.
#[derive(Debug, PartialEq, Eq)]
pub struct ModalSubmitInteraction {
    pub id: InteractionId,
    /// The application the interaction is for.
    pub application_id: ApplicationId,
    /// The identifier the developer gave the modal.
    pub custom_id: String,
    /// The modal's text inputs, filled in, in order.
    pub inputs: Vec<InputText>,
    /// The guild the interaction comes from, if it comes from one.
    pub guild_id: Option<GuildId>,
    pub channel_id: ChannelId,
    pub user: User,
    /// The token to answer the interaction with.
    pub token: String,
    /// The message the modal was opened from, if it was opened from a component.
    pub message: Option<Box<Message>>,
}

impl ModalSubmitInteraction {
    /// Whether two submissions hold the same values, inputs compared one by one.
    pub open spec fn same(&self, other: &ModalSubmitInteraction) -> bool {
        &&& self.id == other.id
        &&& self.application_id == other.application_id
        &&& self.custom_id == other.custom_id
        &&& self.inputs@ == other.inputs@
        &&& self.guild_id == other.guild_id
        &&& self.channel_id == other.channel_id
        &&& self.user == other.user
        &&& self.token == other.token
        &&& self.message == other.message
    }
}

impl Clone for ModalSubmitInteraction {
    fn clone(&self) -> (r: Self)
        ensures
            self.same(&r),
    {
        let message = match &self.message {
            Some(m) => Some(Box::new((**m).clone())),
            None => None,
        };
        ModalSubmitInteraction {
            id: self.id,
            application_id: self.application_id,
            custom_id: self.custom_id.clone(),
            inputs: self.inputs.clone(),
            guild_id: self.guild_id,
            channel_id: self.channel_id,
            user: self.user.clone(),
            token: self.token.clone(),
            message,
        }
    }
}

} // verus!
