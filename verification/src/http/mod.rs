//! Requests to the platform's HTTP interface, up to the point where they are sent.

pub mod request;
pub mod url;
