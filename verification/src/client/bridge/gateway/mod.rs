//! The client's side of the gateway: its shards and what it tells them.

pub mod event;
pub mod shard_manager_monitor;
