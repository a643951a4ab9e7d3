//! What connects the client to the platform.

pub mod gateway;
