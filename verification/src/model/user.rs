//! Users, the connection's own user, and what is known of a user's presence.

use vstd::prelude::*;
use crate::model::id::{GuildId, UserId};

verus! {

/// A user of the platform.
#[derive(Debug, PartialEq, Eq)]
pub struct User {
    pub id: UserId,
    pub name: String,
    pub bot: bool,
}

impl Clone for User {
    fn clone(&self) -> (r: Self)
        ensures
            r == *self,
    {
        User { id: self.id, name: self.name.clone(), bot: self.bot }
    }
}

/// The user the connection is logged in as.
#[derive(Debug, PartialEq, Eq)]
pub struct CurrentUser {
    pub id: UserId,
    pub name: String,
    pub verified: bool,
}

impl Clone for CurrentUser {
    fn clone(&self) -> (r: Self)
        ensures
            r == *self,
    {
        CurrentUser { id: self.id, name: self.name.clone(), verified: self.verified }
    }
}

/// Whether a user is reachable.
#[derive(Clone, Copy, Debug, PartialEq, Eq, Structural, Hash)]
pub enum OnlineStatus {
    DoNotDisturb,
    Idle,
    Invisible,
    Offline,
    Online,
}

/// The presence of one user, as last announced.
#[derive(Clone, Copy, Debug, PartialEq, Eq)]
pub struct Presence {
    pub user_id: UserId,
    pub guild_id: Option<GuildId>,
    pub status: OnlineStatus,
}

} // verus!
