//! The entities that events carry and the cache keeps.

pub mod application;
pub mod channel;
pub mod colour;
pub mod event;
pub mod gateway;
pub mod guild;
pub mod id;
pub mod permissions;
pub mod timestamp;
pub mod user;
pub mod voice;
