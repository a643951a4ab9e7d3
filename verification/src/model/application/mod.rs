//! Applications: components, interactions and grants.

pub mod component;
pub mod interaction;
pub mod oauth;
