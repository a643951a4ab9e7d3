//! What the cache is told to keep.

use vstd::prelude::*;

verus! {

/// Settings of the cache.
#[derive(Clone, Copy, Debug, PartialEq, Eq)]
pub struct Settings {
    /// How many messages the cache keeps for each channel; 0 keeps none.
    pub max_messages: usize,
    /// For how many seconds data that is kept for a time only may stay.
    pub time_to_live: u64,
    /// Whether guilds are kept as they arrive.
    pub cache_guilds: bool,
}

impl Settings {
    /// The settings a cache starts with: no messages, one hour, guilds kept.
    pub open spec fn initial() -> Settings {
        Settings { max_messages: 0, time_to_live: 3600, cache_guilds: true }
    }

    /// The settings a cache starts with.
    pub fn new() -> (r: Self)
        ensures
            r == Settings::initial(),
    {
        Settings { max_messages: 0, time_to_live: 3600, cache_guilds: true }
    }
}

impl Default for Settings {
    fn default() -> (r: Self)
        ensures
            r == Settings::initial(),
    {
        Settings::new()
    }
}

} // verus!
