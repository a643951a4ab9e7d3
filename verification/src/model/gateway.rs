//! What a shard learns when it connects.

use vstd::prelude::*;
use crate::model::guild::UnavailableGuild;
use crate::model::id::ShardId;
use crate::model::user::CurrentUser;

verus! {

/// Which shard a connection is, of how many.
#[derive(Clone, Copy, Debug, PartialEq, Eq)]
pub struct ShardInfo {
    pub id: ShardId,
    pub total: u32,
}

/// What the gateway sends once a shard has identified.
#[derive(Debug, PartialEq, Eq)]
pub struct Ready {
    /// The user the connection is logged in as.
    pub user: CurrentUser,
    /// The guilds the user is in; each starts out unavailable and turns up in a
    /// guild create event of its own.
    pub guilds: Vec<UnavailableGuild>,
    /// Which shard this is; none when the connection is not sharded.
    pub shard: Option<ShardInfo>,
    pub session_id: String,
    /// The version of the gateway protocol.
    pub version: u8,
}

impl Ready {
    /// Whether two values hold the same data, the guilds compared one by one.
    pub open spec fn same(&self, other: &Ready) -> bool {
        &&& self.user == other.user
        &&& self.guilds@ == other.guilds@
        &&& self.shard == other.shard
        &&& self.session_id == other.session_id
        &&& self.version == other.version
    }
}

impl Clone for Ready {
    fn clone(&self) -> (r: Self)
        ensures
            self.same(&r),
    {
        Ready {
            user: self.user.clone(),
            guilds: self.guilds.clone(),
            shard: self.shard,
            session_id: self.session_id.clone(),
            version: self.version,
        }
    }
}

} // verus!
