//! The welcome screen of a guild.

use vstd::prelude::*;
use crate::model::id::{ChannelId, EmojiId};

verus! {

/// What a guild shows to a user who joins.
#[derive(Clone, Debug, PartialEq, Eq)]
pub struct GuildWelcomeScreen {
    pub description: Option<String>,
    /// The channels shown; the platform takes up to 5.
    pub welcome_channels: Vec<GuildWelcomeChannel>,
}

/// A channel shown on the welcome screen.
#[derive(Clone, Debug, PartialEq, Eq)]
pub struct GuildWelcomeChannel {
    pub channel_id: ChannelId,
    pub description: String,
    pub emoji: Option<GuildWelcomeChannelEmoji>,
}

/// The emoji beside a channel of the welcome screen.
#[derive(Clone, Debug, PartialEq, Eq)]
pub enum GuildWelcomeChannelEmoji {
    /// An emoji that a guild defines.
    Custom { id: EmojiId, name: String },
    /// An emoji of Unicode, as text.
    Unicode(String),
}

} // verus!
