//! Limits that the platform sets.

use vstd::prelude::*;

verus! {

/// How many code points the texts of one embed may hold in all.
pub const EMBED_MAX_LENGTH: usize = 6000;

/// How many embeds one message may hold.
pub const EMBED_MAX_COUNT: usize = 10;

/// How many code points the content of one message may hold.
pub const MESSAGE_CODE_LIMIT: usize = 2000;

/// How this library names itself to the platform.
pub const USER_AGENT: &'static str = "DiscordBot (event_dispatch, 0.1.0)";

/// The address under which the platform's HTTP interface lives.
pub const API_ORIGIN: &'static str = "https://discord.com/";

} // verus!
