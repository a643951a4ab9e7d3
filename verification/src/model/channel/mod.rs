//! Channels, messages and reactions.

pub mod embed;

use vstd::prelude::*;
use crate::model::id::{ChannelId, EmojiId, GuildId, MessageId, StageInstanceId, UserId};
use crate::model::user::User;

verus! {

/// The kind of a channel.
#[derive(Clone, Copy, Debug, PartialEq, Eq, Structural, Hash)]
pub enum ChannelType {
    Text,
    Private,
    Voice,
    Category,
    News,
    NewsThread,
    PublicThread,
    PrivateThread,
    Stage,
    Directory,
    Forum,
    Unknown(u8),
}

/// A channel of a guild; a thread is one too.
#[derive(Debug, PartialEq, Eq)]
pub struct GuildChannel {
    pub id: ChannelId,
    pub guild_id: GuildId,
    pub kind: ChannelType,
    pub name: String,
    pub parent_id: Option<ChannelId>,
}

impl Clone for GuildChannel {
    fn clone(&self) -> (r: Self)
        ensures
            r == *self,
    {
        GuildChannel {
            id: self.id,
            guild_id: self.guild_id,
            kind: self.kind,
            name: self.name.clone(),
            parent_id: self.parent_id,
        }
    }
}

/// A direct-message channel with one user.
#[derive(Debug, PartialEq, Eq)]
pub struct PrivateChannel {
    pub id: ChannelId,
    pub recipient: User,
}

impl Clone for PrivateChannel {
    fn clone(&self) -> (r: Self)
        ensures
            r == *self,
    {
        PrivateChannel { id: self.id, recipient: self.recipient.clone() }
    }
}

/// A channel of either sort.
#[derive(Debug, PartialEq, Eq)]
pub enum Channel {
    Guild(GuildChannel),
    Private(PrivateChannel),
}

impl Channel {
    /// The channel's identifier, whichever sort it is.
    pub open spec fn spec_id(&self) -> ChannelId {
        match self {
            Channel::Guild(c) => c.id,
            Channel::Private(c) => c.id,
        }
    }

    /// The channel's identifier, whichever sort it is.
    #[verifier::when_used_as_spec(spec_id)]
    pub fn id(&self) -> (r: ChannelId)
        ensures
            r == self.spec_id(),
    {
        match self {
            Channel::Guild(c) => c.id,
            Channel::Private(c) => c.id,
        }
    }
}

impl Clone for Channel {
    fn clone(&self) -> (r: Self)
        ensures
            r == *self,
    {
        match self {
            Channel::Guild(c) => Channel::Guild(c.clone()),
            Channel::Private(c) => Channel::Private(c.clone()),
        }
    }
}

/// A message of a channel.
#[derive(Debug, PartialEq, Eq)]
pub struct Message {
    pub id: MessageId,
    pub channel_id: ChannelId,
    pub guild_id: Option<GuildId>,
    pub author: User,
    pub content: String,
}

impl Clone for Message {
    fn clone(&self) -> (r: Self)
        ensures
            r == *self,
    {
        Message {
            id: self.id,
            channel_id: self.channel_id,
            guild_id: self.guild_id,
            author: self.author.clone(),
            content: self.content.clone(),
        }
    }
}

/// The emoji of a reaction, of a button or of a menu option.
#[derive(Debug, PartialEq, Eq)]
pub enum ReactionType {
    /// An emoji that a guild defines.
    Custom { animated: bool, id: EmojiId, name: Option<String> },
    /// An emoji of Unicode, as text.
    Unicode(String),
}

impl Clone for ReactionType {
    fn clone(&self) -> (r: Self)
        ensures
            r == *self,
    {
        match self {
            ReactionType::Custom { animated, id, name } => ReactionType::Custom {
                animated: *animated,
                id: *id,
                name: name.clone(),
            },
            ReactionType::Unicode(s) => ReactionType::Unicode(s.clone()),
        }
    }
}

/// A reaction of one user to one message.
#[derive(Debug, PartialEq, Eq)]
pub struct Reaction {
    pub channel_id: ChannelId,
    pub message_id: MessageId,
    pub guild_id: Option<GuildId>,
    pub user_id: Option<UserId>,
    pub emoji: ReactionType,
}

impl Clone for Reaction {
    fn clone(&self) -> (r: Self)
        ensures
            r == *self,
    {
        Reaction {
            channel_id: self.channel_id,
            message_id: self.message_id,
            guild_id: self.guild_id,
            user_id: self.user_id,
            emoji: self.emoji.clone(),
        }
    }
}

/// A live stage of a stage channel.
#[derive(Debug, PartialEq, Eq)]
pub struct StageInstance {
    pub id: StageInstanceId,
    pub guild_id: GuildId,
    pub channel_id: ChannelId,
    pub topic: String,
}

impl Clone for StageInstance {
    fn clone(&self) -> (r: Self)
        ensures
            r == *self,
    {
        StageInstance {
            id: self.id,
            guild_id: self.guild_id,
            channel_id: self.channel_id,
            topic: self.topic.clone(),
        }
    }
}

/// One user's membership of a thread.
#[derive(Clone, Copy, Debug, PartialEq, Eq)]
pub struct ThreadMember {
    pub id: Option<ChannelId>,
    pub user_id: Option<UserId>,
    pub guild_id: Option<GuildId>,
}

} // verus!
