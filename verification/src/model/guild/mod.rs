//! Guilds and what belongs to them: roles, members, emojis, stickers, integrations.

pub mod automod;
pub mod scheduled_event;
pub mod welcome_screen;

use vstd::prelude::*;
use crate::model::colour::Colour;
use crate::model::id::{ApplicationId, EmojiId, GuildId, IntegrationId, RoleId, StickerId, UserId};
use crate::model::user::User;

verus! {

/// A guild as the cache keeps it: its own attributes. Roles, members and channels
/// are kept beside it, each under its own identifier.
#[derive(Debug, PartialEq, Eq)]
pub struct Guild {
    pub id: GuildId,
    pub name: String,
    pub owner_id: UserId,
    pub member_count: u64,
}

impl Clone for Guild {
    fn clone(&self) -> (r: Self)
        ensures
            r == *self,
    {
        Guild {
            id: self.id,
            name: self.name.clone(),
            owner_id: self.owner_id,
            member_count: self.member_count,
        }
    }
}

/// The attributes of a guild that a guild update delivers.
#[derive(Debug, PartialEq, Eq)]
pub struct PartialGuild {
    pub id: GuildId,
    pub name: String,
    pub owner_id: UserId,
}

impl Clone for PartialGuild {
    fn clone(&self) -> (r: Self)
        ensures
            r == *self,
    {
        PartialGuild { id: self.id, name: self.name.clone(), owner_id: self.owner_id }
    }
}

/// A guild of which only the identifier is known, and whether an outage hides it.
#[derive(Clone, Copy, Debug, PartialEq, Eq)]
pub struct UnavailableGuild {
    pub id: GuildId,
    pub unavailable: bool,
}

/// A role of a guild.
#[derive(Debug, PartialEq, Eq)]
pub struct Role {
    pub id: RoleId,
    pub guild_id: GuildId,
    pub name: String,
    pub colour: Colour,
    pub hoist: bool,
    pub mentionable: bool,
}

impl Clone for Role {
    fn clone(&self) -> (r: Self)
        ensures
            r == *self,
    {
        Role {
            id: self.id,
            guild_id: self.guild_id,
            name: self.name.clone(),
            colour: self.colour,
            hoist: self.hoist,
            mentionable: self.mentionable,
        }
    }
}

/// A user as a member of one guild.
#[derive(Debug, PartialEq, Eq)]
pub struct Member {
    pub guild_id: GuildId,
    pub user: User,
    pub nick: Option<String>,
    pub deaf: bool,
    pub mute: bool,
    pub pending: bool,
}

impl Clone for Member {
    fn clone(&self) -> (r: Self)
        ensures
            r == *self,
    {
        Member {
            guild_id: self.guild_id,
            user: self.user.clone(),
            nick: self.nick.clone(),
            deaf: self.deaf,
            mute: self.mute,
            pending: self.pending,
        }
    }
}

/// A custom emoji of a guild.
#[derive(Debug, PartialEq, Eq)]
pub struct Emoji {
    pub id: EmojiId,
    pub name: String,
    pub animated: bool,
}

impl Clone for Emoji {
    fn clone(&self) -> (r: Self)
        ensures
            r == *self,
    {
        Emoji { id: self.id, name: self.name.clone(), animated: self.animated }
    }
}

/// A sticker of a guild.
#[derive(Debug, PartialEq, Eq)]
pub struct Sticker {
    pub id: StickerId,
    pub name: String,
}

impl Clone for Sticker {
    fn clone(&self) -> (r: Self)
        ensures
            r == *self,
    {
        Sticker { id: self.id, name: self.name.clone() }
    }
}

/// An integration of an outside service with a guild.
#[derive(Debug, PartialEq, Eq)]
pub struct Integration {
    pub id: IntegrationId,
    pub guild_id: GuildId,
    pub name: String,
    pub enabled: bool,
    pub application_id: Option<ApplicationId>,
}

impl Clone for Integration {
    fn clone(&self) -> (r: Self)
        ensures
            r == *self,
    {
        Integration {
            id: self.id,
            guild_id: self.guild_id,
            name: self.name.clone(),
            enabled: self.enabled,
            application_id: self.application_id,
        }
    }
}

} // verus!
