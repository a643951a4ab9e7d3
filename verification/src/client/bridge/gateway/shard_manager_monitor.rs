//! What the monitor of the shard manager makes of what it is told.

use vstd::prelude::*;

verus! {

/// Why the shards were shut down.
#[derive(Clone, Copy, Debug, PartialEq, Eq, Structural)]
pub enum ShardManagerError {
    /// A shard was refused for its token.
    InvalidToken,
    /// A shard was refused because it asked for intents that do not exist.
    InvalidGatewayIntents,
    /// A shard was refused because it asked for intents that it may not have.
    DisallowedGatewayIntents,
}

/// What the shard manager's monitor can be told.
#[derive(Clone, Copy, Debug, PartialEq, Eq, Structural)]
pub enum ShardManagerMessage {
    /// The shards are being shut down in good order.
    ShutdownInitiated,
    /// A shard was refused for its token.
    ShardInvalidAuthentication,
    /// A shard was refused because it asked for intents that do not exist.
    ShardInvalidGatewayIntents,
    /// A shard was refused because it asked for intents that it may not have.
    ShardDisallowedGatewayIntents,
}

/// What the monitor does next.
#[derive(Clone, Copy, Debug, PartialEq, Eq)]
pub struct MonitorVerdict {
    /// Whether all shards are to be shut down first.
    pub shutdown_all: bool,
    /// How the monitor's run ends.
    pub result: Result<(), ShardManagerError>,
}

/// The error that a message stands for; none for a shutdown in good order.
pub open spec fn error_of(message: ShardManagerMessage) -> Option<ShardManagerError> {
    match message {
        ShardManagerMessage::ShutdownInitiated => None,
        ShardManagerMessage::ShardInvalidAuthentication => Some(ShardManagerError::InvalidToken),
        ShardManagerMessage::ShardInvalidGatewayIntents => Some(
            ShardManagerError::InvalidGatewayIntents,
        ),
        ShardManagerMessage::ShardDisallowedGatewayIntents => Some(
            ShardManagerError::DisallowedGatewayIntents,
        ),
    }
}

/// What the monitor makes of what it received; `None` stands for a channel that
/// was closed. Whatever comes ends the monitor's run: a refusal of a shard shuts
/// all shards down and ends the run with the error, and a shutdown in good order
/// or a closed channel ends it without one.
pub fn monitor_verdict(received: Option<ShardManagerMessage>) -> (r: MonitorVerdict)
    ensures
        r == match received {
            Some(message) => match error_of(message) {
                Some(e) => MonitorVerdict { shutdown_all: true, result: Err(e) },
                None => MonitorVerdict { shutdown_all: false, result: Ok(()) },
            },
            None => MonitorVerdict { shutdown_all: false, result: Ok(()) },
        },
{
    let error = match received {
        Some(ShardManagerMessage::ShardInvalidAuthentication) => Some(
            ShardManagerError::InvalidToken,
        ),
        Some(ShardManagerMessage::ShardInvalidGatewayIntents) => Some(
            ShardManagerError::InvalidGatewayIntents,
        ),
        Some(ShardManagerMessage::ShardDisallowedGatewayIntents) => Some(
            ShardManagerError::DisallowedGatewayIntents,
        ),
        _ => None,
    };
    match error {
        Some(e) => MonitorVerdict { shutdown_all: true, result: Err(e) },
        None => MonitorVerdict { shutdown_all: false, result: Ok(()) },
    }
}

} // verus!
