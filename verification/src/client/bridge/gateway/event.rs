//! Events that the client itself raises about its shards.

use vstd::prelude::*;
use crate::model::id::ShardId;

verus! {

/// How far a shard's connection has come.
#[derive(Clone, Copy, Debug, PartialEq, Eq, Structural, Hash)]
pub enum ConnectionStage {
    /// The shard is connected and receives events.
    Connected,
    /// The shard is opening its connection.
    Connecting,
    /// The shard has no connection.
    Disconnected,
    /// The shard exchanges its first messages with the gateway.
    Handshake,
    /// The shard tells the gateway who it is.
    Identifying,
    /// The shard takes up a session it held before.
    Resuming,
}

/// A shard's connection went from one stage to another.
#[derive(Clone, Copy, Debug, PartialEq, Eq)]
pub struct ShardStageUpdateEvent {
    pub new: ConnectionStage,
    pub old: ConnectionStage,
    pub shard_id: ShardId,
}

/// An event that the client raises itself.
#[derive(Clone, Copy, Debug, PartialEq, Eq)]
pub enum ClientEvent {
    ShardStageUpdate(ShardStageUpdateEvent),
}

} // verus!
