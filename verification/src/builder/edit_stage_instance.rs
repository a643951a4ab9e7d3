//! The edit of a live stage.

use vstd::prelude::*;
use crate::error::{Error, ModelError};
use crate::model::channel::{ChannelType, GuildChannel};

verus! {

/// A builder of the edit of a live stage.
#[derive(Clone, Debug, PartialEq, Eq)]
pub struct EditStageInstance {
    pub topic: Option<String>,
}

impl EditStageInstance {
    /// The edit that changes nothing.
    pub fn new() -> (r: Self)
        ensures
            r.topic is None,
    {
        EditStageInstance { topic: None }
    }

    /// Sets the topic of the stage.
    pub fn topic(self, topic: &str) -> (r: Self)
        ensures
            r.topic matches Some(set) && set@ == topic@,
    {
        EditStageInstance { topic: Some(topic.to_owned()) }
    }

    /// Whether the edit may be sent for the channel, given what the cache knows
    /// of it: it may not where the cache holds the channel and it is no stage.
    pub fn check_channel(&self, cached: &Option<GuildChannel>) -> (r: Result<(), Error>)
        ensures
            r == if cached matches Some(channel) && channel.kind != ChannelType::Stage {
                Err::<(), Error>(Error::Model(ModelError::InvalidChannelType))
            } else {
                Ok::<(), Error>(())
            },
    {
        if let Some(channel) = cached {
            if channel.kind != ChannelType::Stage {
                return Err(Error::Model(ModelError::InvalidChannelType));
            }
        }
        Ok(())
    }
}

impl Default for EditStageInstance {
    fn default() -> (r: Self)
        ensures
            r.topic is None,
    {
        EditStageInstance::new()
    }
}

} // verus!
