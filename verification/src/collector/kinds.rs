//! Collectors by kind of item: which events they pick, and by which filters.
//!
//! A collector is a value that is built step by step: `new` sets no filter, and
//! each further call sets one. An item passes when every filter that is set
//! equals what the item holds. The order of the calls does not matter.

use vstd::prelude::*;
use crate::collector::stream::{CollectorStream, StreamState};
use crate::model::application::interaction::message_component::ComponentInteraction;
use crate::model::application::interaction::modal::ModalSubmitInteraction;
use crate::model::application::interaction::Interaction;
use crate::model::channel::{Message, Reaction};
use crate::model::event::Event;
use crate::model::id::{ChannelId, GuildId, MessageId, UserId};

verus! {

/// The identifier of a message, if there is a message.
pub open spec fn message_of(message: Option<Box<Message>>) -> Option<MessageId> {
    match message {
        Some(m) => Some(m.id),
        None => None,
    }
}

/// Whether a filter lets a value pass: no filter lets every value pass, and a
/// filter that is set lets the value pass that equals it.
pub open spec fn lets_pass<Id>(filter: Option<Id>, held: Option<Id>) -> bool {
    match filter {
        Some(wanted) => held == Some(wanted),
        None => true,
    }
}

fn user_passes(filter: Option<UserId>, held: Option<UserId>) -> (r: bool)
    ensures
        r == lets_pass(filter, held),
{
    match filter {
        Some(wanted) => match held {
            Some(id) => id.0 == wanted.0,
            None => false,
        },
        None => true,
    }
}

fn channel_passes(filter: Option<ChannelId>, held: Option<ChannelId>) -> (r: bool)
    ensures
        r == lets_pass(filter, held),
{
    match filter {
        Some(wanted) => match held {
            Some(id) => id.0 == wanted.0,
            None => false,
        },
        None => true,
    }
}

fn guild_passes(filter: Option<GuildId>, held: Option<GuildId>) -> (r: bool)
    ensures
        r == lets_pass(filter, held),
{
    match filter {
        Some(wanted) => match held {
            Some(id) => id.0 == wanted.0,
            None => false,
        },
        None => true,
    }
}

fn message_passes(filter: Option<MessageId>, held: Option<MessageId>) -> (r: bool)
    ensures
        r == lets_pass(filter, held),
{
    match filter {
        Some(wanted) => match held {
            Some(id) => id.0 == wanted.0,
            None => false,
        },
        None => true,
    }
}

/// A collector of interactions with components of messages.
#[derive(Clone, Copy, Debug, PartialEq, Eq)]
pub struct ComponentInteractionCollector {
    /// For how many milliseconds from registration the collector receives; without
    /// limit where none is set.
    pub duration: Option<u64>,
    /// Lets only items of this user pass.
    pub author_id: Option<UserId>,
    /// Lets only items of this channel pass.
    pub channel_id: Option<ChannelId>,
    /// Lets only items of this guild pass.
    pub guild_id: Option<GuildId>,
    /// Lets only items that belong to this message pass.
    pub message_id: Option<MessageId>,
}

impl ComponentInteractionCollector {
    /// The collector with no filter and no time limit.
    pub open spec fn unset() -> Self {
        ComponentInteractionCollector {
            duration: None,
            author_id: None,
            channel_id: None,
            guild_id: None,
            message_id: None,
        }
    }

    /// The collector with no filter and no time limit.
    pub fn new() -> (r: Self)
        ensures
            r == Self::unset(),
    {
        ComponentInteractionCollector {
            duration: None,
            author_id: None,
            channel_id: None,
            guild_id: None,
            message_id: None,
        }
    }

    /// The collector with the duration set to `duration`.
    pub open spec fn with_timeout(self, duration: u64) -> Self {
        ComponentInteractionCollector { duration: Some(duration), ..self }
    }

    /// Sets for how many milliseconds from registration the collector receives.
    pub fn timeout(self, duration: u64) -> (r: Self)
        ensures
            r == self.with_timeout(duration),
    {
        ComponentInteractionCollector { duration: Some(duration), ..self }
    }

    /// The collector with the filter on the author set to `author_id`.
    pub open spec fn with_author(self, author_id: UserId) -> Self {
        ComponentInteractionCollector { author_id: Some(author_id), ..self }
    }

    /// Lets only items of user `author_id` pass.
    pub fn author_id(self, author_id: UserId) -> (r: Self)
        ensures
            r == self.with_author(author_id),
    {
        ComponentInteractionCollector { author_id: Some(author_id), ..self }
    }

    /// The collector with the filter on the channel set to `channel_id`.
    pub open spec fn with_channel(self, channel_id: ChannelId) -> Self {
        ComponentInteractionCollector { channel_id: Some(channel_id), ..self }
    }

    /// Lets only items of channel `channel_id` pass.
    pub fn channel_id(self, channel_id: ChannelId) -> (r: Self)
        ensures
            r == self.with_channel(channel_id),
    {
        ComponentInteractionCollector { channel_id: Some(channel_id), ..self }
    }

    /// The collector with the filter on the guild set to `guild_id`.
    pub open spec fn with_guild(self, guild_id: GuildId) -> Self {
        ComponentInteractionCollector { guild_id: Some(guild_id), ..self }
    }

    /// Lets only items of guild `guild_id` pass.
    pub fn guild_id(self, guild_id: GuildId) -> (r: Self)
        ensures
            r == self.with_guild(guild_id),
    {
        ComponentInteractionCollector { guild_id: Some(guild_id), ..self }
    }

    /// The collector with the filter on the message set to `message_id`.
    pub open spec fn with_message(self, message_id: MessageId) -> Self {
        ComponentInteractionCollector { message_id: Some(message_id), ..self }
    }

    /// Lets only items that belong to message `message_id` pass.
    pub fn message_id(self, message_id: MessageId) -> (r: Self)
        ensures
            r == self.with_message(message_id),
    {
        ComponentInteractionCollector { message_id: Some(message_id), ..self }
    }

    /// Whether `item` passes every filter that is set.
    pub open spec fn admits(&self, item: &ComponentInteraction) -> bool {
        &&& lets_pass(self.author_id, Some(item.user.id))
        &&& lets_pass(self.channel_id, Some(item.channel_id))
        &&& lets_pass(self.guild_id, item.guild_id)
        &&& lets_pass(self.message_id, Some(item.message.id))
    }

    /// Whether `item` passes every filter that is set.
    pub fn check(&self, item: &ComponentInteraction) -> (r: bool)
        ensures
            r == self.admits(item),
    {
        user_passes(self.author_id, Some(item.user.id))
            && channel_passes(self.channel_id, Some(item.channel_id))
            && guild_passes(self.guild_id, item.guild_id)
            && message_passes(self.message_id, Some(item.message.id))
    }

    /// The interaction with a component that the event carries, if it carries one.
    pub open spec fn carried(event: &Event) -> Option<ComponentInteraction> {
        match *event {
            Event::InteractionCreate(e) => match e.interaction {
                Interaction::Component(item) => Some(item),
                _ => None,
            },
            _ => None,
        }
    }

    /// The interaction with a component that the event carries, if it carries one.
    pub fn carried_by(event: &Event) -> (r: Option<&ComponentInteraction>)
        ensures
            match r {
                Some(item) => Self::carried(event) == Some(*item),
                None => Self::carried(event) is None,
            },
    {
        match event {
            Event::InteractionCreate(e) => match &e.interaction {
                Interaction::Component(item) => Some(item),
                _ => None,
            },
            _ => None,
        }
    }

    /// The item that the collector picks from `event`: what an event of the
    /// collector's kind carries, if it passes the filters.
    pub open spec fn extracted(&self, event: &Event) -> Option<ComponentInteraction> {
        match Self::carried(event) {
            Some(item) => if self.admits(&item) {
                Some(item)
            } else {
                None
            },
            None => None,
        }
    }

    /// Picks the collector's item from `event`, as a copy of its own.
    pub fn extract(&self, event: &Event) -> (r: Option<ComponentInteraction>)
        ensures
            match r {
                Some(item) => self.extracted(event) matches Some(picked) && picked.same(&item),
                None => self.extracted(event) is None,
            },
    {
        match Self::carried_by(event) {
            Some(item) => if self.check(item) {
                Some(item.clone())
            } else {
                None
            },
            None => None,
        }
    }

    /// Picks the collector's item from `event` if it also satisfies `filter`. The
    /// filter is asked only about an item that passes the collector's own filters.
    pub fn extract_if<F: Fn(&ComponentInteraction) -> bool>(
        &self,
        event: &Event,
        filter: &F,
    ) -> (r: Option<ComponentInteraction>)
        requires
            self.extracted(event) matches Some(picked) ==> filter.requires((&picked,)),
        ensures
            match r {
                Some(item) => {
                    &&& self.extracted(event) matches Some(picked) && picked.same(&item)
                    &&& self.extracted(event) matches Some(picked)
                    &&& filter.ensures((&picked,), true)
                },
                None => self.extracted(event) matches Some(picked) ==> filter.ensures(
                    (&picked,),
                    false,
                ),
            },
    {
        match Self::carried_by(event) {
            Some(item) => if self.check(item) && filter(item) {
                Some(item.clone())
            } else {
                None
            },
            None => None,
        }
    }

    /// The stream of this collector, registered at time `registered_at` (in
    /// milliseconds): it ends when the collector's duration has passed since then.
    pub fn stream(&self, registered_at: u64) -> (r: CollectorStream<ComponentInteraction>)
        ensures
            r@ == StreamState::<ComponentInteraction>::fresh(registered_at, self.duration),
    {
        CollectorStream::new(registered_at, self.duration)
    }

    /// The filters do not depend on the order in which they are set: setting one
    /// and then another gives the collector that setting them the other way round
    /// gives, and which items pass depends on the filters alone, not on the
    /// duration.
    pub proof fn lemma_order_of_setting(
        self,
        author_id: UserId,
        channel_id: ChannelId,
        guild_id: GuildId,
        message_id: MessageId,
        duration: u64,
        item: ComponentInteraction,
    )
        ensures
            self.with_author(author_id).with_channel(channel_id)
                == self.with_channel(channel_id).with_author(author_id),
            self.with_author(author_id).with_guild(guild_id)
                == self.with_guild(guild_id).with_author(author_id),
            self.with_author(author_id).with_message(message_id)
                == self.with_message(message_id).with_author(author_id),
            self.with_author(author_id).with_timeout(duration)
                == self.with_timeout(duration).with_author(author_id),
            self.with_channel(channel_id).with_guild(guild_id)
                == self.with_guild(guild_id).with_channel(channel_id),
            self.with_channel(channel_id).with_message(message_id)
                == self.with_message(message_id).with_channel(channel_id),
            self.with_channel(channel_id).with_timeout(duration)
                == self.with_timeout(duration).with_channel(channel_id),
            self.with_guild(guild_id).with_message(message_id)
                == self.with_message(message_id).with_guild(guild_id),
            self.with_guild(guild_id).with_timeout(duration)
                == self.with_timeout(duration).with_guild(guild_id),
            self.with_message(message_id).with_timeout(duration)
                == self.with_timeout(duration).with_message(message_id),
            self.with_timeout(duration).admits(&item) == self.admits(&item),
    {
    }
}

/// A collector of submissions of modals.
#[derive(Clone, Copy, Debug, PartialEq, Eq)]
pub struct ModalInteractionCollector {
    /// For how many milliseconds from registration the collector receives; without
    /// limit where none is set.
    pub duration: Option<u64>,
    /// Lets only items of this user pass.
    pub author_id: Option<UserId>,
    /// Lets only items of this channel pass.
    pub channel_id: Option<ChannelId>,
    /// Lets only items of this guild pass.
    pub guild_id: Option<GuildId>,
    /// Lets only items that belong to this message pass.
    pub message_id: Option<MessageId>,
}

impl ModalInteractionCollector {
    /// The collector with no filter and no time limit.
    pub open spec fn unset() -> Self {
        ModalInteractionCollector {
            duration: None,
            author_id: None,
            channel_id: None,
            guild_id: None,
            message_id: None,
        }
    }

    /// The collector with no filter and no time limit.
    pub fn new() -> (r: Self)
        ensures
            r == Self::unset(),
    {
        ModalInteractionCollector {
            duration: None,
            author_id: None,
            channel_id: None,
            guild_id: None,
            message_id: None,
        }
    }

    /// The collector with the duration set to `duration`.
    pub open spec fn with_timeout(self, duration: u64) -> Self {
        ModalInteractionCollector { duration: Some(duration), ..self }
    }

    /// Sets for how many milliseconds from registration the collector receives.
    pub fn timeout(self, duration: u64) -> (r: Self)
        ensures
            r == self.with_timeout(duration),
    {
        ModalInteractionCollector { duration: Some(duration), ..self }
    }

    /// The collector with the filter on the author set to `author_id`.
    pub open spec fn with_author(self, author_id: UserId) -> Self {
        ModalInteractionCollector { author_id: Some(author_id), ..self }
    }

    /// Lets only items of user `author_id` pass.
    pub fn author_id(self, author_id: UserId) -> (r: Self)
        ensures
            r == self.with_author(author_id),
    {
        ModalInteractionCollector { author_id: Some(author_id), ..self }
    }

    /// The collector with the filter on the channel set to `channel_id`.
    pub open spec fn with_channel(self, channel_id: ChannelId) -> Self {
        ModalInteractionCollector { channel_id: Some(channel_id), ..self }
    }

    /// Lets only items of channel `channel_id` pass.
    pub fn channel_id(self, channel_id: ChannelId) -> (r: Self)
        ensures
            r == self.with_channel(channel_id),
    {
        ModalInteractionCollector { channel_id: Some(channel_id), ..self }
    }

    /// The collector with the filter on the guild set to `guild_id`.
    pub open spec fn with_guild(self, guild_id: GuildId) -> Self {
        ModalInteractionCollector { guild_id: Some(guild_id), ..self }
    }

    /// Lets only items of guild `guild_id` pass.
    pub fn guild_id(self, guild_id: GuildId) -> (r: Self)
        ensures
            r == self.with_guild(guild_id),
    {
        ModalInteractionCollector { guild_id: Some(guild_id), ..self }
    }

    /// The collector with the filter on the message set to `message_id`.
    pub open spec fn with_message(self, message_id: MessageId) -> Self {
        ModalInteractionCollector { message_id: Some(message_id), ..self }
    }

    /// Lets only items that belong to message `message_id` pass.
    pub fn message_id(self, message_id: MessageId) -> (r: Self)
        ensures
            r == self.with_message(message_id),
    {
        ModalInteractionCollector { message_id: Some(message_id), ..self }
    }

    /// Whether `item` passes every filter that is set.
    pub open spec fn admits(&self, item: &ModalSubmitInteraction) -> bool {
        &&& lets_pass(self.author_id, Some(item.user.id))
        &&& lets_pass(self.channel_id, Some(item.channel_id))
        &&& lets_pass(self.guild_id, item.guild_id)
        &&& lets_pass(self.message_id, message_of(item.message))
    }

    /// Whether `item` passes every filter that is set.
    pub fn check(&self, item: &ModalSubmitInteraction) -> (r: bool)
        ensures
            r == self.admits(item),
    {
        let held_message = match &item.message {
            Some(m) => Some(m.id),
            None => None,
        };
        user_passes(self.author_id, Some(item.user.id))
            && channel_passes(self.channel_id, Some(item.channel_id))
            && guild_passes(self.guild_id, item.guild_id)
            && message_passes(self.message_id, held_message)
    }

    /// The submission of a modal that the event carries, if it carries one.
    pub open spec fn carried(event: &Event) -> Option<ModalSubmitInteraction> {
        match *event {
            Event::InteractionCreate(e) => match e.interaction {
                Interaction::ModalSubmit(item) => Some(item),
                _ => None,
            },
            _ => None,
        }
    }

    /// The submission of a modal that the event carries, if it carries one.
    pub fn carried_by(event: &Event) -> (r: Option<&ModalSubmitInteraction>)
        ensures
            match r {
                Some(item) => Self::carried(event) == Some(*item),
                None => Self::carried(event) is None,
            },
    {
        match event {
            Event::InteractionCreate(e) => match &e.interaction {
                Interaction::ModalSubmit(item) => Some(item),
                _ => None,
            },
            _ => None,
        }
    }

    /// The item that the collector picks from `event`: what an event of the
    /// collector's kind carries, if it passes the filters.
    pub open spec fn extracted(&self, event: &Event) -> Option<ModalSubmitInteraction> {
        match Self::carried(event) {
            Some(item) => if self.admits(&item) {
                Some(item)
            } else {
                None
            },
            None => None,
        }
    }

    /// Picks the collector's item from `event`, as a copy of its own.
    pub fn extract(&self, event: &Event) -> (r: Option<ModalSubmitInteraction>)
        ensures
            match r {
                Some(item) => self.extracted(event) matches Some(picked) && picked.same(&item),
                None => self.extracted(event) is None,
            },
    {
        match Self::carried_by(event) {
            Some(item) => if self.check(item) {
                Some(item.clone())
            } else {
                None
            },
            None => None,
        }
    }

    /// Picks the collector's item from `event` if it also satisfies `filter`. The
    /// filter is asked only about an item that passes the collector's own filters.
    pub fn extract_if<F: Fn(&ModalSubmitInteraction) -> bool>(
        &self,
        event: &Event,
        filter: &F,
    ) -> (r: Option<ModalSubmitInteraction>)
        requires
            self.extracted(event) matches Some(picked) ==> filter.requires((&picked,)),
        ensures
            match r {
                Some(item) => {
                    &&& self.extracted(event) matches Some(picked) && picked.same(&item)
                    &&& self.extracted(event) matches Some(picked)
                    &&& filter.ensures((&picked,), true)
                },
                None => self.extracted(event) matches Some(picked) ==> filter.ensures(
                    (&picked,),
                    false,
                ),
            },
    {
        match Self::carried_by(event) {
            Some(item) => if self.check(item) && filter(item) {
                Some(item.clone())
            } else {
                None
            },
            None => None,
        }
    }

    /// The stream of this collector, registered at time `registered_at` (in
    /// milliseconds): it ends when the collector's duration has passed since then.
    pub fn stream(&self, registered_at: u64) -> (r: CollectorStream<ModalSubmitInteraction>)
        ensures
            r@ == StreamState::<ModalSubmitInteraction>::fresh(registered_at, self.duration),
    {
        CollectorStream::new(registered_at, self.duration)
    }

    /// The filters do not depend on the order in which they are set: setting one
    /// and then another gives the collector that setting them the other way round
    /// gives, and which items pass depends on the filters alone, not on the
    /// duration.
    pub proof fn lemma_order_of_setting(
        self,
        author_id: UserId,
        channel_id: ChannelId,
        guild_id: GuildId,
        message_id: MessageId,
        duration: u64,
        item: ModalSubmitInteraction,
    )
        ensures
            self.with_author(author_id).with_channel(channel_id)
                == self.with_channel(channel_id).with_author(author_id),
            self.with_author(author_id).with_guild(guild_id)
                == self.with_guild(guild_id).with_author(author_id),
            self.with_author(author_id).with_message(message_id)
                == self.with_message(message_id).with_author(author_id),
            self.with_author(author_id).with_timeout(duration)
                == self.with_timeout(duration).with_author(author_id),
            self.with_channel(channel_id).with_guild(guild_id)
                == self.with_guild(guild_id).with_channel(channel_id),
            self.with_channel(channel_id).with_message(message_id)
                == self.with_message(message_id).with_channel(channel_id),
            self.with_channel(channel_id).with_timeout(duration)
                == self.with_timeout(duration).with_channel(channel_id),
            self.with_guild(guild_id).with_message(message_id)
                == self.with_message(message_id).with_guild(guild_id),
            self.with_guild(guild_id).with_timeout(duration)
                == self.with_timeout(duration).with_guild(guild_id),
            self.with_message(message_id).with_timeout(duration)
                == self.with_timeout(duration).with_message(message_id),
            self.with_timeout(duration).admits(&item) == self.admits(&item),
    {
    }
}

/// A collector of reactions that users add.
#[derive(Clone, Copy, Debug, PartialEq, Eq)]
pub struct ReactionCollector {
    /// For how many milliseconds from registration the collector receives; without
    /// limit where none is set.
    pub duration: Option<u64>,
    /// Lets only items of this user pass.
    pub author_id: Option<UserId>,
    /// Lets only items of this channel pass.
    pub channel_id: Option<ChannelId>,
    /// Lets only items of this guild pass.
    pub guild_id: Option<GuildId>,
    /// Lets only items that belong to this message pass.
    pub message_id: Option<MessageId>,
}

impl ReactionCollector {
    /// The collector with no filter and no time limit.
    pub open spec fn unset() -> Self {
        ReactionCollector {
            duration: None,
            author_id: None,
            channel_id: None,
            guild_id: None,
            message_id: None,
        }
    }

    /// The collector with no filter and no time limit.
    pub fn new() -> (r: Self)
        ensures
            r == Self::unset(),
    {
        ReactionCollector {
            duration: None,
            author_id: None,
            channel_id: None,
            guild_id: None,
            message_id: None,
        }
    }

    /// The collector with the duration set to `duration`.
    pub open spec fn with_timeout(self, duration: u64) -> Self {
        ReactionCollector { duration: Some(duration), ..self }
    }

    /// Sets for how many milliseconds from registration the collector receives.
    pub fn timeout(self, duration: u64) -> (r: Self)
        ensures
            r == self.with_timeout(duration),
    {
        ReactionCollector { duration: Some(duration), ..self }
    }

    /// The collector with the filter on the author set to `author_id`.
    pub open spec fn with_author(self, author_id: UserId) -> Self {
        ReactionCollector { author_id: Some(author_id), ..self }
    }

    /// Lets only items of user `author_id` pass.
    pub fn author_id(self, author_id: UserId) -> (r: Self)
        ensures
            r == self.with_author(author_id),
    {
        ReactionCollector { author_id: Some(author_id), ..self }
    }

    /// The collector with the filter on the channel set to `channel_id`.
    pub open spec fn with_channel(self, channel_id: ChannelId) -> Self {
        ReactionCollector { channel_id: Some(channel_id), ..self }
    }

    /// Lets only items of channel `channel_id` pass.
    pub fn channel_id(self, channel_id: ChannelId) -> (r: Self)
        ensures
            r == self.with_channel(channel_id),
    {
        ReactionCollector { channel_id: Some(channel_id), ..self }
    }

    /// The collector with the filter on the guild set to `guild_id`.
    pub open spec fn with_guild(self, guild_id: GuildId) -> Self {
        ReactionCollector { guild_id: Some(guild_id), ..self }
    }

    /// Lets only items of guild `guild_id` pass.
    pub fn guild_id(self, guild_id: GuildId) -> (r: Self)
        ensures
            r == self.with_guild(guild_id),
    {
        ReactionCollector { guild_id: Some(guild_id), ..self }
    }

    /// The collector with the filter on the message set to `message_id`.
    pub open spec fn with_message(self, message_id: MessageId) -> Self {
        ReactionCollector { message_id: Some(message_id), ..self }
    }

    /// Lets only items that belong to message `message_id` pass.
    pub fn message_id(self, message_id: MessageId) -> (r: Self)
        ensures
            r == self.with_message(message_id),
    {
        ReactionCollector { message_id: Some(message_id), ..self }
    }

    /// Whether `item` passes every filter that is set.
    pub open spec fn admits(&self, item: &Reaction) -> bool {
        &&& lets_pass(self.author_id, item.user_id)
        &&& lets_pass(self.channel_id, Some(item.channel_id))
        &&& lets_pass(self.guild_id, item.guild_id)
        &&& lets_pass(self.message_id, Some(item.message_id))
    }

    /// Whether `item` passes every filter that is set.
    pub fn check(&self, item: &Reaction) -> (r: bool)
        ensures
            r == self.admits(item),
    {
        user_passes(self.author_id, item.user_id)
            && channel_passes(self.channel_id, Some(item.channel_id))
            && guild_passes(self.guild_id, item.guild_id)
            && message_passes(self.message_id, Some(item.message_id))
    }

    /// The reaction that the event adds, if it adds one.
    pub open spec fn carried(event: &Event) -> Option<Reaction> {
        match *event {
            Event::ReactionAdd(e) => Some(e.reaction),
            _ => None,
        }
    }

    /// The reaction that the event adds, if it adds one.
    pub fn carried_by(event: &Event) -> (r: Option<&Reaction>)
        ensures
            match r {
                Some(item) => Self::carried(event) == Some(*item),
                None => Self::carried(event) is None,
            },
    {
        match event {
            Event::ReactionAdd(e) => Some(&e.reaction),
            _ => None,
        }
    }

    /// The item that the collector picks from `event`: what an event of the
    /// collector's kind carries, if it passes the filters.
    pub open spec fn extracted(&self, event: &Event) -> Option<Reaction> {
        match Self::carried(event) {
            Some(item) => if self.admits(&item) {
                Some(item)
            } else {
                None
            },
            None => None,
        }
    }

    /// Picks the collector's item from `event`, as a copy of its own.
    pub fn extract(&self, event: &Event) -> (r: Option<Reaction>)
        ensures
            r == self.extracted(event),
    {
        match Self::carried_by(event) {
            Some(item) => if self.check(item) {
                Some(item.clone())
            } else {
                None
            },
            None => None,
        }
    }

    /// Picks the collector's item from `event` if it also satisfies `filter`. The
    /// filter is asked only about an item that passes the collector's own filters.
    pub fn extract_if<F: Fn(&Reaction) -> bool>(
        &self,
        event: &Event,
        filter: &F,
    ) -> (r: Option<Reaction>)
        requires
            self.extracted(event) matches Some(picked) ==> filter.requires((&picked,)),
        ensures
            match r {
                Some(item) => {
                    &&& self.extracted(event) == Some(item)
                    &&& self.extracted(event) matches Some(picked)
                    &&& filter.ensures((&picked,), true)
                },
                None => self.extracted(event) matches Some(picked) ==> filter.ensures(
                    (&picked,),
                    false,
                ),
            },
    {
        match Self::carried_by(event) {
            Some(item) => if self.check(item) && filter(item) {
                Some(item.clone())
            } else {
                None
            },
            None => None,
        }
    }

    /// The stream of this collector, registered at time `registered_at` (in
    /// milliseconds): it ends when the collector's duration has passed since then.
    pub fn stream(&self, registered_at: u64) -> (r: CollectorStream<Reaction>)
        ensures
            r@ == StreamState::<Reaction>::fresh(registered_at, self.duration),
    {
        CollectorStream::new(registered_at, self.duration)
    }

    /// The filters do not depend on the order in which they are set: setting one
    /// and then another gives the collector that setting them the other way round
    /// gives, and which items pass depends on the filters alone, not on the
    /// duration.
    pub proof fn lemma_order_of_setting(
        self,
        author_id: UserId,
        channel_id: ChannelId,
        guild_id: GuildId,
        message_id: MessageId,
        duration: u64,
        item: Reaction,
    )
        ensures
            self.with_author(author_id).with_channel(channel_id)
                == self.with_channel(channel_id).with_author(author_id),
            self.with_author(author_id).with_guild(guild_id)
                == self.with_guild(guild_id).with_author(author_id),
            self.with_author(author_id).with_message(message_id)
                == self.with_message(message_id).with_author(author_id),
            self.with_author(author_id).with_timeout(duration)
                == self.with_timeout(duration).with_author(author_id),
            self.with_channel(channel_id).with_guild(guild_id)
                == self.with_guild(guild_id).with_channel(channel_id),
            self.with_channel(channel_id).with_message(message_id)
                == self.with_message(message_id).with_channel(channel_id),
            self.with_channel(channel_id).with_timeout(duration)
                == self.with_timeout(duration).with_channel(channel_id),
            self.with_guild(guild_id).with_message(message_id)
                == self.with_message(message_id).with_guild(guild_id),
            self.with_guild(guild_id).with_timeout(duration)
                == self.with_timeout(duration).with_guild(guild_id),
            self.with_message(message_id).with_timeout(duration)
                == self.with_timeout(duration).with_message(message_id),
            self.with_timeout(duration).admits(&item) == self.admits(&item),
    {
    }
}

/// A collector of messages that are posted.
#[derive(Clone, Copy, Debug, PartialEq, Eq)]
pub struct MessageCollector {
    /// For how many milliseconds from registration the collector receives; without
    /// limit where none is set.
    pub duration: Option<u64>,
    /// Lets only items of this user pass.
    pub author_id: Option<UserId>,
    /// Lets only items of this channel pass.
    pub channel_id: Option<ChannelId>,
    /// Lets only items of this guild pass.
    pub guild_id: Option<GuildId>,
}

impl MessageCollector {
    /// The collector with no filter and no time limit.
    pub open spec fn unset() -> Self {
        MessageCollector {
            duration: None,
            author_id: None,
            channel_id: None,
            guild_id: None,
        }
    }

    /// The collector with no filter and no time limit.
    pub fn new() -> (r: Self)
        ensures
            r == Self::unset(),
    {
        MessageCollector {
            duration: None,
            author_id: None,
            channel_id: None,
            guild_id: None,
        }
    }

    /// The collector with the duration set to `duration`.
    pub open spec fn with_timeout(self, duration: u64) -> Self {
        MessageCollector { duration: Some(duration), ..self }
    }

    /// Sets for how many milliseconds from registration the collector receives.
    pub fn timeout(self, duration: u64) -> (r: Self)
        ensures
            r == self.with_timeout(duration),
    {
        MessageCollector { duration: Some(duration), ..self }
    }

    /// The collector with the filter on the author set to `author_id`.
    pub open spec fn with_author(self, author_id: UserId) -> Self {
        MessageCollector { author_id: Some(author_id), ..self }
    }

    /// Lets only items of user `author_id` pass.
    pub fn author_id(self, author_id: UserId) -> (r: Self)
        ensures
            r == self.with_author(author_id),
    {
        MessageCollector { author_id: Some(author_id), ..self }
    }

    /// The collector with the filter on the channel set to `channel_id`.
    pub open spec fn with_channel(self, channel_id: ChannelId) -> Self {
        MessageCollector { channel_id: Some(channel_id), ..self }
    }

    /// Lets only items of channel `channel_id` pass.
    pub fn channel_id(self, channel_id: ChannelId) -> (r: Self)
        ensures
            r == self.with_channel(channel_id),
    {
        MessageCollector { channel_id: Some(channel_id), ..self }
    }

    /// The collector with the filter on the guild set to `guild_id`.
    pub open spec fn with_guild(self, guild_id: GuildId) -> Self {
        MessageCollector { guild_id: Some(guild_id), ..self }
    }

    /// Lets only items of guild `guild_id` pass.
    pub fn guild_id(self, guild_id: GuildId) -> (r: Self)
        ensures
            r == self.with_guild(guild_id),
    {
        MessageCollector { guild_id: Some(guild_id), ..self }
    }

    /// Whether `item` passes every filter that is set.
    pub open spec fn admits(&self, item: &Message) -> bool {
        &&& lets_pass(self.author_id, Some(item.author.id))
        &&& lets_pass(self.channel_id, Some(item.channel_id))
        &&& lets_pass(self.guild_id, item.guild_id)
    }

    /// Whether `item` passes every filter that is set.
    pub fn check(&self, item: &Message) -> (r: bool)
        ensures
            r == self.admits(item),
    {
        user_passes(self.author_id, Some(item.author.id))
            && channel_passes(self.channel_id, Some(item.channel_id))
            && guild_passes(self.guild_id, item.guild_id)
    }

    /// The message that the event posts, if it posts one.
    pub open spec fn carried(event: &Event) -> Option<Message> {
        match *event {
            Event::MessageCreate(e) => Some(e.message),
            _ => None,
        }
    }

    /// The message that the event posts, if it posts one.
    pub fn carried_by(event: &Event) -> (r: Option<&Message>)
        ensures
            match r {
                Some(item) => Self::carried(event) == Some(*item),
                None => Self::carried(event) is None,
            },
    {
        match event {
            Event::MessageCreate(e) => Some(&e.message),
            _ => None,
        }
    }

    /// The item that the collector picks from `event`: what an event of the
    /// collector's kind carries, if it passes the filters.
    pub open spec fn extracted(&self, event: &Event) -> Option<Message> {
        match Self::carried(event) {
            Some(item) => if self.admits(&item) {
                Some(item)
            } else {
                None
            },
            None => None,
        }
    }

    /// Picks the collector's item from `event`, as a copy of its own.
    pub fn extract(&self, event: &Event) -> (r: Option<Message>)
        ensures
            r == self.extracted(event),
    {
        match Self::carried_by(event) {
            Some(item) => if self.check(item) {
                Some(item.clone())
            } else {
                None
            },
            None => None,
        }
    }

    /// Picks the collector's item from `event` if it also satisfies `filter`. The
    /// filter is asked only about an item that passes the collector's own filters.
    pub fn extract_if<F: Fn(&Message) -> bool>(
        &self,
        event: &Event,
        filter: &F,
    ) -> (r: Option<Message>)
        requires
            self.extracted(event) matches Some(picked) ==> filter.requires((&picked,)),
        ensures
            match r {
                Some(item) => {
                    &&& self.extracted(event) == Some(item)
                    &&& self.extracted(event) matches Some(picked)
                    &&& filter.ensures((&picked,), true)
                },
                None => self.extracted(event) matches Some(picked) ==> filter.ensures(
                    (&picked,),
                    false,
                ),
            },
    {
        match Self::carried_by(event) {
            Some(item) => if self.check(item) && filter(item) {
                Some(item.clone())
            } else {
                None
            },
            None => None,
        }
    }

    /// The stream of this collector, registered at time `registered_at` (in
    /// milliseconds): it ends when the collector's duration has passed since then.
    pub fn stream(&self, registered_at: u64) -> (r: CollectorStream<Message>)
        ensures
            r@ == StreamState::<Message>::fresh(registered_at, self.duration),
    {
        CollectorStream::new(registered_at, self.duration)
    }

    /// The filters do not depend on the order in which they are set: setting one
    /// and then another gives the collector that setting them the other way round
    /// gives, and which items pass depends on the filters alone, not on the
    /// duration.
    pub proof fn lemma_order_of_setting(
        self,
        author_id: UserId,
        channel_id: ChannelId,
        guild_id: GuildId,
        duration: u64,
        item: Message,
    )
        ensures
            self.with_author(author_id).with_channel(channel_id)
                == self.with_channel(channel_id).with_author(author_id),
            self.with_author(author_id).with_guild(guild_id)
                == self.with_guild(guild_id).with_author(author_id),
            self.with_author(author_id).with_timeout(duration)
                == self.with_timeout(duration).with_author(author_id),
            self.with_channel(channel_id).with_guild(guild_id)
                == self.with_guild(guild_id).with_channel(channel_id),
            self.with_channel(channel_id).with_timeout(duration)
                == self.with_timeout(duration).with_channel(channel_id),
            self.with_guild(guild_id).with_timeout(duration)
                == self.with_timeout(duration).with_guild(guild_id),
            self.with_timeout(duration).admits(&item) == self.admits(&item),
    {
    }
}

/// A collector of events of every kind.
#[derive(Clone, Copy, Debug, PartialEq, Eq)]
pub struct EventCollector {
    /// For how many milliseconds from registration the collector receives; without
    /// limit where none is set.
    pub duration: Option<u64>,
}

impl EventCollector {
    /// The collector with no time limit.
    pub fn new() -> (r: Self)
        ensures
            r == (EventCollector { duration: None }),
    {
        EventCollector { duration: None }
    }

    /// Sets for how many milliseconds from registration the collector receives.
    pub fn timeout(self, duration: u64) -> (r: Self)
        ensures
            r == (EventCollector { duration: Some(duration) }),
    {
        EventCollector { duration: Some(duration) }
    }

    /// Picks `event` itself, as a copy.
    pub fn extract(&self, event: &Event) -> (r: Option<Event>)
        ensures
            r matches Some(item) && event.same(&item),
    {
        Some(event.clone())
    }

    /// Picks `event`, as a copy, if it satisfies `filter`.
    pub fn extract_if<F: Fn(&Event) -> bool>(
        &self,
        event: &Event,
        filter: &F,
    ) -> (r: Option<Event>)
        requires
            filter.requires((event,)),
        ensures
            match r {
                Some(item) => event.same(&item) && filter.ensures((event,), true),
                None => filter.ensures((event,), false),
            },
    {
        if filter(event) {
            Some(event.clone())
        } else {
            None
        }
    }

    /// The stream of this collector, registered at time `registered_at` (in
    /// milliseconds): it ends when the collector's duration has passed since then.
    pub fn stream(&self, registered_at: u64) -> (r: CollectorStream<Event>)
        ensures
            r@ == StreamState::<Event>::fresh(registered_at, self.duration),
    {
        CollectorStream::new(registered_at, self.duration)
    }
}

} // verus!
