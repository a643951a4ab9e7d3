//! Voice connections of users.

use vstd::prelude::*;
use crate::model::id::{ChannelId, GuildId, UserId};

verus! {

/// Where a user is connected to voice, and how.
#[derive(Clone, Copy, Debug, PartialEq, Eq)]
pub struct VoiceState {
    pub user_id: UserId,
    pub guild_id: Option<GuildId>,
    pub channel_id: Option<ChannelId>,
    pub deaf: bool,
    pub mute: bool,
    pub self_deaf: bool,
    pub self_mute: bool,
}

} // verus!
