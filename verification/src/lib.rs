//! The event core of a chat-platform client.
//!
//! A shard receives events of many kinds over its connection. For each of them
//! the [`client::dispatch`] module brings the [`cache`] up to date and says which
//! handlers are to be called with what; the [`collector`] module lets a consumer
//! wait for the events it is interested in. The [`model`] holds the entities that
//! events carry, the [`builder`] module what a client sends, [`json`] the form in
//! which it is sent, and [`http`] the request that carries it.
//!
//! Nothing here waits, spawns or reads the clock: whoever runs the connection
//! does, and hands this library plain values.

pub mod builder;
pub mod cache;
pub mod client;
pub mod collector;
pub mod constants;
pub mod error;
pub mod http;
pub mod json;
pub mod model;
pub mod utils;
