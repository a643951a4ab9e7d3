//! Scheduled events of a guild.

use vstd::prelude::*;
use crate::model::guild::Member;
use crate::model::id::{ChannelId, GuildId, ScheduledEventId, UserId};
use crate::model::timestamp::Timestamp;
use crate::model::user::User;

verus! {

/// An event that a guild has scheduled.
#[derive(Debug, PartialEq, Eq)]
pub struct ScheduledEvent {
    pub id: ScheduledEventId,
    pub guild_id: GuildId,
    /// The channel the event takes place in, if it has one.
    pub channel_id: Option<ChannelId>,
    /// The user who scheduled the event.
    pub creator_id: Option<UserId>,
    pub name: String,
    pub description: Option<String>,
    pub start_time: Timestamp,
    pub end_time: Option<Timestamp>,
    pub status: ScheduledEventStatus,
    pub creator: Option<User>,
    /// Where the event takes place: a stage, a voice channel, or elsewhere.
    pub kind: ScheduledEventType,
    /// The place of an event outside the platform.
    pub metadata: Option<ScheduledEventMetadata>,
    /// How many users are interested, where the platform was asked to count.
    pub user_count: Option<u64>,
    /// The hash of the cover image.
    pub image: Option<String>,
}

impl Clone for ScheduledEvent {
    fn clone(&self) -> (r: Self)
        ensures
            r == *self,
    {
        ScheduledEvent {
            id: self.id,
            guild_id: self.guild_id,
            channel_id: self.channel_id,
            creator_id: self.creator_id,
            name: self.name.clone(),
            description: self.description.clone(),
            start_time: self.start_time.clone(),
            end_time: self.end_time.clone(),
            status: self.status,
            creator: self.creator.clone(),
            kind: self.kind,
            metadata: self.metadata.clone(),
            user_count: self.user_count,
            image: self.image.clone(),
        }
    }
}

/// How far a scheduled event has come.
#[derive(Clone, Copy, Debug, PartialEq, Eq, Structural, Hash)]
pub enum ScheduledEventStatus {
    Scheduled,
    Active,
    Completed,
    Canceled,
    /// A number that this library has no name for.
    Unknown(u8),
}

impl From<u8> for ScheduledEventStatus {
    fn from(value: u8) -> (r: Self) {
        match value {
            1 => ScheduledEventStatus::Scheduled,
            2 => ScheduledEventStatus::Active,
            3 => ScheduledEventStatus::Completed,
            4 => ScheduledEventStatus::Canceled,
            _ => ScheduledEventStatus::Unknown(value),
        }
    }
}

impl vstd::std_specs::convert::FromSpecImpl<u8> for ScheduledEventStatus {
    open spec fn obeys_from_spec() -> bool {
        true
    }

    open spec fn from_spec(value: u8) -> Self {
        match value {
            1 => ScheduledEventStatus::Scheduled,
            2 => ScheduledEventStatus::Active,
            3 => ScheduledEventStatus::Completed,
            4 => ScheduledEventStatus::Canceled,
            _ => ScheduledEventStatus::Unknown(value),
        }
    }
}

impl From<ScheduledEventStatus> for u8 {
    fn from(value: ScheduledEventStatus) -> (r: Self) {
        match value {
            ScheduledEventStatus::Scheduled => 1,
            ScheduledEventStatus::Active => 2,
            ScheduledEventStatus::Completed => 3,
            ScheduledEventStatus::Canceled => 4,
            ScheduledEventStatus::Unknown(unknown) => unknown,
        }
    }
}

impl vstd::std_specs::convert::FromSpecImpl<ScheduledEventStatus> for u8 {
    open spec fn obeys_from_spec() -> bool {
        true
    }

    open spec fn from_spec(value: ScheduledEventStatus) -> Self {
        match value {
            ScheduledEventStatus::Scheduled => 1,
            ScheduledEventStatus::Active => 2,
            ScheduledEventStatus::Completed => 3,
            ScheduledEventStatus::Canceled => 4,
            ScheduledEventStatus::Unknown(unknown) => unknown,
        }
    }
}

/// Where a scheduled event takes place.
#[derive(Clone, Copy, Debug, PartialEq, Eq, Structural, Hash)]
pub enum ScheduledEventType {
    StageInstance,
    Voice,
    External,
    /// A number that this library has no name for.
    Unknown(u8),
}

impl From<u8> for ScheduledEventType {
    fn from(value: u8) -> (r: Self) {
        match value {
            1 => ScheduledEventType::StageInstance,
            2 => ScheduledEventType::Voice,
            3 => ScheduledEventType::External,
            _ => ScheduledEventType::Unknown(value),
        }
    }
}

impl vstd::std_specs::convert::FromSpecImpl<u8> for ScheduledEventType {
    open spec fn obeys_from_spec() -> bool {
        true
    }

    open spec fn from_spec(value: u8) -> Self {
        match value {
            1 => ScheduledEventType::StageInstance,
            2 => ScheduledEventType::Voice,
            3 => ScheduledEventType::External,
            _ => ScheduledEventType::Unknown(value),
        }
    }
}

impl From<ScheduledEventType> for u8 {
    fn from(value: ScheduledEventType) -> (r: Self) {
        match value {
            ScheduledEventType::StageInstance => 1,
            ScheduledEventType::Voice => 2,
            ScheduledEventType::External => 3,
            ScheduledEventType::Unknown(unknown) => unknown,
        }
    }
}

impl vstd::std_specs::convert::FromSpecImpl<ScheduledEventType> for u8 {
    open spec fn obeys_from_spec() -> bool {
        true
    }

    open spec fn from_spec(value: ScheduledEventType) -> Self {
        match value {
            ScheduledEventType::StageInstance => 1,
            ScheduledEventType::Voice => 2,
            ScheduledEventType::External => 3,
            ScheduledEventType::Unknown(unknown) => unknown,
        }
    }
}

/// The place of a scheduled event outside the platform.
#[derive(Debug, PartialEq, Eq)]
pub struct ScheduledEventMetadata {
    pub location: String,
}

impl Clone for ScheduledEventMetadata {
    fn clone(&self) -> (r: Self)
        ensures
            r == *self,
    {
        ScheduledEventMetadata { location: self.location.clone() }
    }
}

/// A user who is interested in a scheduled event.
#[derive(Debug, PartialEq, Eq)]
pub struct ScheduledEventUser {
    pub event_id: ScheduledEventId,
    pub user: User,
    pub member: Option<Member>,
}

impl Clone for ScheduledEventUser {
    fn clone(&self) -> (r: Self)
        ensures
            r == *self,
    {
        ScheduledEventUser {
            event_id: self.event_id,
            user: self.user.clone(),
            member: self.member.clone(),
        }
    }
}

} // verus!
