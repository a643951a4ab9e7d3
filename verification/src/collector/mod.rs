//! Collectors: subscriptions that pick items out of the event stream for a waiting
//! consumer, by kind of event and by filters, for a set time or without limit.

pub mod kinds;
pub mod laws;
pub mod registry;
pub mod stream;
