//! The dispatcher: what one event does to the cache, and which calls of which
//! handlers it asks for.
//!
//! Nothing here runs a handler. [`dispatch`] brings the cache up to date and returns
//! the work to schedule; whoever holds the handlers schedules each piece as a task
//! of its own. So the cache is current, and the list of calls is complete, before
//! any handler runs, and neither depends on what a handler does.

use vstd::prelude::*;
use crate::cache::event::{channel_before, entry, CacheUpdate};
use crate::cache::table::lookup;
use crate::cache::{Cache, CacheState};
use crate::client::bridge::gateway::event::ClientEvent;
use crate::client::event_handler::HandlerCall;
use crate::model::channel::{Channel, ChannelType, Message};
use crate::model::event::{Event, GuildCreateEvent};
use crate::model::id::GuildId;

verus! {

/// What the dispatcher takes: an event of the gateway, or one that the client
/// raises itself.
#[derive(Debug, PartialEq, Eq)]
pub enum DispatchEvent {
    Client(ClientEvent),
    Model(Event),
}

impl DispatchEvent {
    /// The cache after the event. An event of the client leaves it as it is.
    pub open spec fn applied(&self, c: CacheState) -> CacheState {
        match *self {
            DispatchEvent::Model(e) => e.applied(c),
            DispatchEvent::Client(_) => c,
        }
    }

    /// Brings the cache up to date with the event.
    pub fn update_cache(&self, cache: &mut Cache)
        requires
            old(cache)@.wf(),
        ensures
            final(cache)@.wf(),
            final(cache)@ == self.applied(old(cache)@),
    {
        match self {
            DispatchEvent::Model(e) => e.update_cache(cache),
            DispatchEvent::Client(_) => {},
        }
    }
}

/// Brings the cache up to date with an event of one kind, and returns what the
/// event replaced or removed.
pub fn update_cache<E: CacheUpdate>(cache: &mut Cache, event: &E) -> (out: Option<E::Output>)
    requires
        old(cache)@.wf(),
    ensures
        final(cache)@.wf(),
        final(cache)@ == event.applied(old(cache)@),
        event.is_prior(old(cache)@, out),
{
    event.update(cache)
}

/// Whether the guild create event `e` makes the last unavailable guild available:
/// the guild was unavailable, and after the event none is.
pub open spec fn cache_ready_due(c: CacheState, e: GuildCreateEvent) -> bool {
    c.unavailable_guilds.contains(e.guild.id.0) && e.applied(c).unavailable_guilds.is_empty()
}

/// Whether `guilds` names the guilds that `c` holds, each once.
pub open spec fn lists_guilds_of(guilds: Seq<GuildId>, c: CacheState) -> bool {
    &&& guilds.no_duplicates()
    &&& forall|g: GuildId| guilds.contains(g) <==> c.guilds.contains_key(g.0)
}

/// The cache with the announcement that all shards are ready marked as made, if
/// it is due.
pub open spec fn shards_ready_marked(c: CacheState) -> CacheState {
    CacheState { has_sent_shards_ready: c.has_sent_shards_ready || c.shards_ready_due(), ..c }
}

/// The cache after [`handle_event`]: brought up to date with the event, and, for a
/// ready event, with the announcement that all shards are ready marked as made if
/// it is due. A message create event has a path of its own and is left alone.
pub open spec fn handled(event: DispatchEvent, c: CacheState) -> CacheState {
    match event {
        DispatchEvent::Model(Event::MessageCreate(_)) => c,
        DispatchEvent::Model(Event::Ready(e)) => shards_ready_marked(e.applied(c)),
        _ => event.applied(c),
    }
}

/// Whether `calls` are the calls that an event handler gets for `event` when the
/// cache is `c` before the event: which methods, in which order, with which
/// arguments.
pub open spec fn routed(event: DispatchEvent, c: CacheState, calls: Seq<HandlerCall>) -> bool {
    match event {
        DispatchEvent::Client(ClientEvent::ShardStageUpdate(e)) => calls == seq![
            HandlerCall::ShardStageUpdate { event: e },
        ],
        DispatchEvent::Model(event) => match event {
            Event::ApplicationCommandPermissionsUpdate(e) => calls == seq![
                HandlerCall::ApplicationCommandPermissionsUpdate { permission: e.permission },
            ],
            Event::AutoModerationRuleCreate(e) => calls == seq![
                HandlerCall::AutoModerationRuleCreate { rule: e.rule },
            ],
            Event::AutoModerationRuleUpdate(e) => calls == seq![
                HandlerCall::AutoModerationRuleUpdate { rule: e.rule },
            ],
            Event::AutoModerationRuleDelete(e) => calls == seq![
                HandlerCall::AutoModerationRuleDelete { rule: e.rule },
            ],
            Event::AutoModerationActionExecution(e) => calls == seq![
                HandlerCall::AutoModerationActionExecution { execution: e.execution },
            ],
            Event::ChannelCreate(e) => match e.channel {
                Channel::Guild(ch) => calls == seq![
                    if ch.kind == ChannelType::Category {
                        HandlerCall::CategoryCreate { category: ch }
                    } else {
                        HandlerCall::ChannelCreate { channel: ch }
                    },
                ],
                Channel::Private(_) => calls.len() == 0,
            },
            Event::ChannelDelete(e) => match e.channel {
                Channel::Guild(ch) => if ch.kind == ChannelType::Category {
                    calls == seq![HandlerCall::CategoryDelete { category: ch }]
                } else {
                    &&& calls.len() == 1
                    &&& calls[0] matches HandlerCall::ChannelDelete { channel, messages }
                    &&& channel == ch
                    &&& e.is_prior(c, messages)
                },
                Channel::Private(_) => calls.len() == 0,
            },
            Event::ChannelPinsUpdate(e) => calls == seq![
                HandlerCall::ChannelPinsUpdate { pin: e },
            ],
            Event::ChannelUpdate(e) => calls == seq![
                HandlerCall::ChannelUpdate { old: channel_before(c, e.channel), new: e.channel },
            ],
            Event::GuildBanAdd(e) => calls == seq![
                HandlerCall::GuildBanAddition { guild_id: e.guild_id, banned_user: e.user },
            ],
            Event::GuildBanRemove(e) => calls == seq![
                HandlerCall::GuildBanRemoval { guild_id: e.guild_id, unbanned_user: e.user },
            ],
            Event::GuildCreate(e) => {
                let call = HandlerCall::GuildCreate {
                    guild: e.guild,
                    is_new: Some(c.unavailable_guilds.contains(e.guild.id.0)),
                };
                if cache_ready_due(c, e) {
                    &&& calls.len() == 2
                    &&& calls[0] matches HandlerCall::CacheReady { guilds }
                    &&& lists_guilds_of(guilds@, e.applied(c))
                    &&& calls[1] == call
                } else {
                    calls == seq![call]
                }
            },
            Event::GuildDelete(e) => calls == seq![
                HandlerCall::GuildDelete {
                    incomplete: e.guild,
                    full: entry(c.guilds, e.guild.id.0),
                },
            ],
            Event::GuildEmojisUpdate(e) => calls == seq![
                HandlerCall::GuildEmojisUpdate { guild_id: e.guild_id, current_state: e.emojis },
            ],
            Event::GuildIntegrationsUpdate(e) => calls == seq![
                HandlerCall::GuildIntegrationsUpdate { guild_id: e.guild_id },
            ],
            Event::GuildMemberAdd(e) => calls == seq![
                HandlerCall::GuildMemberAddition { new_member: e.member },
            ],
            Event::GuildMemberRemove(e) => calls == seq![
                HandlerCall::GuildMemberRemoval {
                    guild_id: e.guild_id,
                    user: e.user,
                    member: lookup(c.members, e.guild_id.0, e.user.id.0),
                },
            ],
            Event::GuildMemberUpdate(e) => calls == seq![
                HandlerCall::GuildMemberUpdate {
                    old: lookup(c.members, e.guild_id.0, e.user.id.0),
                    new: Some(e.member()),
                    event: e,
                },
            ],
            Event::GuildMembersChunk(e) => calls == seq![
                HandlerCall::GuildMembersChunk { chunk: e },
            ],
            Event::GuildRoleCreate(e) => calls == seq![
                HandlerCall::GuildRoleCreate { new: e.role },
            ],
            Event::GuildRoleDelete(e) => calls == seq![
                HandlerCall::GuildRoleDelete {
                    guild_id: e.guild_id,
                    role_id: e.role_id,
                    role: lookup(c.roles, e.guild_id.0, e.role_id.0),
                },
            ],
            Event::GuildRoleUpdate(e) => calls == seq![
                HandlerCall::GuildRoleUpdate {
                    old: lookup(c.roles, e.role.guild_id.0, e.role.id.0),
                    new: e.role,
                },
            ],
            Event::GuildStickersUpdate(e) => calls == seq![
                HandlerCall::GuildStickersUpdate {
                    guild_id: e.guild_id,
                    current_state: e.stickers,
                },
            ],
            Event::GuildUpdate(e) => calls == seq![
                HandlerCall::GuildUpdate { old: entry(c.guilds, e.guild.id.0), new: e.guild },
            ],
            Event::InviteCreate(e) => calls == seq![HandlerCall::InviteCreate { data: e }],
            Event::InviteDelete(e) => calls == seq![HandlerCall::InviteDelete { data: e }],
            Event::MessageCreate(_) => calls.len() == 0,
            Event::MessageDeleteBulk(e) => calls == seq![
                HandlerCall::MessageDeleteBulk {
                    channel_id: e.channel_id,
                    deleted_message_ids: e.ids,
                    guild_id: e.guild_id,
                },
            ],
            Event::MessageDelete(e) => calls == seq![
                HandlerCall::MessageDelete {
                    channel_id: e.channel_id,
                    deleted_message_id: e.message_id,
                    guild_id: e.guild_id,
                },
            ],
            Event::MessageUpdate(e) => calls == seq![
                HandlerCall::MessageUpdate {
                    old: c.message(e.channel_id.0, e.id),
                    new: e.applied(c).message(e.channel_id.0, e.id),
                    event: e,
                },
            ],
            Event::PresencesReplace(e) => calls == seq![
                HandlerCall::PresenceReplace { presences: e.presences },
            ],
            Event::PresenceUpdate(e) => calls == seq![
                HandlerCall::PresenceUpdate { new_data: e.presence },
            ],
            Event::ReactionAdd(e) => calls == seq![
                HandlerCall::ReactionAdd { add_reaction: e.reaction },
            ],
            Event::ReactionRemove(e) => calls == seq![
                HandlerCall::ReactionRemove { removed_reaction: e.reaction },
            ],
            Event::ReactionRemoveAll(e) => calls == seq![
                HandlerCall::ReactionRemoveAll {
                    channel_id: e.channel_id,
                    removed_from_message_id: e.message_id,
                },
            ],
            Event::Ready(e) => {
                let call = HandlerCall::Ready { data_about_bot: e.ready };
                if e.applied(c).shards_ready_due() {
                    calls == seq![
                        HandlerCall::ShardsReady { total_shards: e.applied(c).shards_total },
                        call,
                    ]
                } else {
                    calls == seq![call]
                }
            },
            Event::Resumed(e) => calls == seq![HandlerCall::Resume { event: e }],
            Event::TypingStart(e) => calls == seq![HandlerCall::TypingStart { event: e }],
            Event::Unknown => calls.len() == 0,
            Event::UserUpdate(e) => calls == seq![
                HandlerCall::UserUpdate { old: c.user, new: e.current_user },
            ],
            Event::VoiceServerUpdate(e) => calls == seq![
                HandlerCall::VoiceServerUpdate { event: e },
            ],
            Event::VoiceStateUpdate(e) => calls == seq![
                HandlerCall::VoiceStateUpdate {
                    old: entry(c.voice_states, e.voice_state.user_id.0),
                    new: e.voice_state,
                },
            ],
            Event::WebhookUpdate(e) => calls == seq![
                HandlerCall::WebhookUpdate {
                    guild_id: e.guild_id,
                    belongs_to_channel_id: e.channel_id,
                },
            ],
            Event::InteractionCreate(e) => calls == seq![
                HandlerCall::InteractionCreate { interaction: e.interaction },
            ],
            Event::IntegrationCreate(e) => calls == seq![
                HandlerCall::IntegrationCreate { integration: e.integration },
            ],
            Event::IntegrationUpdate(e) => calls == seq![
                HandlerCall::IntegrationUpdate { integration: e.integration },
            ],
            Event::IntegrationDelete(e) => calls == seq![
                HandlerCall::IntegrationDelete {
                    integration_id: e.id,
                    guild_id: e.guild_id,
                    application_id: e.application_id,
                },
            ],
            Event::StageInstanceCreate(e) => calls == seq![
                HandlerCall::StageInstanceCreate { stage_instance: e.stage_instance },
            ],
            Event::StageInstanceUpdate(e) => calls == seq![
                HandlerCall::StageInstanceUpdate { stage_instance: e.stage_instance },
            ],
            Event::StageInstanceDelete(e) => calls == seq![
                HandlerCall::StageInstanceDelete { stage_instance: e.stage_instance },
            ],
            Event::ThreadCreate(e) => calls == seq![
                HandlerCall::ThreadCreate { thread: e.thread },
            ],
            Event::ThreadUpdate(e) => calls == seq![
                HandlerCall::ThreadUpdate { thread: e.thread },
            ],
            Event::ThreadDelete(e) => calls == seq![
                HandlerCall::ThreadDelete { thread: e.thread },
            ],
            Event::ThreadListSync(e) => calls == seq![
                HandlerCall::ThreadListSync { thread_list_sync: e },
            ],
            Event::ThreadMemberUpdate(e) => calls == seq![
                HandlerCall::ThreadMemberUpdate { thread_member: e.member },
            ],
            Event::ThreadMembersUpdate(e) => calls == seq![
                HandlerCall::ThreadMembersUpdate { thread_members_update: e },
            ],
            Event::GuildScheduledEventCreate(e) => calls == seq![
                HandlerCall::GuildScheduledEventCreate { event: e.event },
            ],
            Event::GuildScheduledEventUpdate(e) => calls == seq![
                HandlerCall::GuildScheduledEventUpdate { event: e.event },
            ],
            Event::GuildScheduledEventDelete(e) => calls == seq![
                HandlerCall::GuildScheduledEventDelete { event: e.event },
            ],
            Event::GuildScheduledEventUserAdd(e) => calls == seq![
                HandlerCall::GuildScheduledEventUserAdd { subscribed: e },
            ],
            Event::GuildScheduledEventUserRemove(e) => calls == seq![
                HandlerCall::GuildScheduledEventUserRemove { unsubscribed: e },
            ],
        },
    }
}

fn one(call: HandlerCall) -> (calls: Vec<HandlerCall>)
    ensures
        calls@ == seq![call],
{
    let mut calls: Vec<HandlerCall> = Vec::new();
    calls.push(call);
    assert(calls@ =~= seq![call]);
    calls
}

/// Brings the cache up to date with the event and returns the calls that an event
/// handler gets for it, in the order in which they are to be scheduled.
///
/// A value that a call carries from the cache ("old") is the value that the cache
/// held before this event. An event of unknown kind, a private channel's create or
/// delete, and a message create (which [`dispatch`] handles itself) give no call.
pub fn handle_event(cache: &mut Cache, event: DispatchEvent) -> (calls: Vec<HandlerCall>)
    requires
        old(cache)@.wf(),
    ensures
        final(cache)@.wf(),
        final(cache)@ == handled(event, old(cache)@),
        routed(event, old(cache)@, calls@),
{
    let model_event = match event {
        DispatchEvent::Model(event) => event,
        DispatchEvent::Client(ClientEvent::ShardStageUpdate(e)) => {
            return one(HandlerCall::ShardStageUpdate { event: e });
        },
    };
    let calls = match model_event {
        Event::ApplicationCommandPermissionsUpdate(e) => {
            one(HandlerCall::ApplicationCommandPermissionsUpdate { permission: e.permission })
        },
        Event::AutoModerationRuleCreate(e) => {
            one(HandlerCall::AutoModerationRuleCreate { rule: e.rule })
        },
        Event::AutoModerationRuleUpdate(e) => {
            one(HandlerCall::AutoModerationRuleUpdate { rule: e.rule })
        },
        Event::AutoModerationRuleDelete(e) => {
            one(HandlerCall::AutoModerationRuleDelete { rule: e.rule })
        },
        Event::AutoModerationActionExecution(e) => {
            one(HandlerCall::AutoModerationActionExecution { execution: e.execution })
        },
        Event::ChannelCreate(e) => {
            let _ = e.update(cache);
            match e.channel {
                Channel::Guild(ch) => if ch.kind == ChannelType::Category {
                    one(HandlerCall::CategoryCreate { category: ch })
                } else {
                    one(HandlerCall::ChannelCreate { channel: ch })
                },
                Channel::Private(_) => Vec::new(),
            }
        },
        Event::ChannelDelete(e) => {
            let messages = e.update(cache);
            match e.channel {
                Channel::Guild(ch) => if ch.kind == ChannelType::Category {
                    one(HandlerCall::CategoryDelete { category: ch })
                } else {
                    one(HandlerCall::ChannelDelete { channel: ch, messages })
                },
                Channel::Private(_) => Vec::new(),
            }
        },
        Event::ChannelPinsUpdate(e) => one(HandlerCall::ChannelPinsUpdate { pin: e }),
        Event::ChannelUpdate(e) => {
            let old = e.update(cache);
            one(HandlerCall::ChannelUpdate { old, new: e.channel })
        },
        Event::GuildBanAdd(e) => {
            one(HandlerCall::GuildBanAddition { guild_id: e.guild_id, banned_user: e.user })
        },
        Event::GuildBanRemove(e) => {
            one(HandlerCall::GuildBanRemoval { guild_id: e.guild_id, unbanned_user: e.user })
        },
        Event::GuildCreate(e) => {
            let was_unavailable = cache.is_unavailable(e.guild.id);
            let _ = e.update(cache);
            let mut calls: Vec<HandlerCall> = Vec::new();
            if was_unavailable && cache.all_guilds_available() {
                let guilds = cache.guild_ids();
                calls.push(HandlerCall::CacheReady { guilds });
            }
            calls.push(HandlerCall::GuildCreate { guild: e.guild, is_new: Some(was_unavailable) });
            proof {
                let call = HandlerCall::GuildCreate {
                    guild: e.guild,
                    is_new: Some(old(cache)@.unavailable_guilds.contains(e.guild.id.0)),
                };
                if cache_ready_due(old(cache)@, e) {
                    assert(calls@.len() == 2);
                    assert(calls@[1] == call);
                } else {
                    assert(calls@ =~= seq![call]);
                }
            }
            calls
        },
        Event::GuildDelete(e) => {
            let full = e.update(cache);
            one(HandlerCall::GuildDelete { incomplete: e.guild, full })
        },
        Event::GuildEmojisUpdate(e) => {
            let _ = e.update(cache);
            one(HandlerCall::GuildEmojisUpdate { guild_id: e.guild_id, current_state: e.emojis })
        },
        Event::GuildIntegrationsUpdate(e) => {
            one(HandlerCall::GuildIntegrationsUpdate { guild_id: e.guild_id })
        },
        Event::GuildMemberAdd(e) => {
            let _ = e.update(cache);
            one(HandlerCall::GuildMemberAddition { new_member: e.member })
        },
        Event::GuildMemberRemove(e) => {
            let member = e.update(cache);
            one(HandlerCall::GuildMemberRemoval { guild_id: e.guild_id, user: e.user, member })
        },
        Event::GuildMemberUpdate(e) => {
            let old = e.update(cache);
            let new = cache.member(e.guild_id, e.user.id);
            one(HandlerCall::GuildMemberUpdate { old, new, event: e })
        },
        Event::GuildMembersChunk(e) => {
            let _ = e.update(cache);
            one(HandlerCall::GuildMembersChunk { chunk: e })
        },
        Event::GuildRoleCreate(e) => {
            let _ = e.update(cache);
            one(HandlerCall::GuildRoleCreate { new: e.role })
        },
        Event::GuildRoleDelete(e) => {
            let role = e.update(cache);
            one(HandlerCall::GuildRoleDelete { guild_id: e.guild_id, role_id: e.role_id, role })
        },
        Event::GuildRoleUpdate(e) => {
            let old = e.update(cache);
            one(HandlerCall::GuildRoleUpdate { old, new: e.role })
        },
        Event::GuildStickersUpdate(e) => {
            let _ = e.update(cache);
            one(
                HandlerCall::GuildStickersUpdate {
                    guild_id: e.guild_id,
                    current_state: e.stickers,
                },
            )
        },
        Event::GuildUpdate(e) => {
            let old = e.update(cache);
            one(HandlerCall::GuildUpdate { old, new: e.guild })
        },
        Event::InviteCreate(e) => one(HandlerCall::InviteCreate { data: e }),
        Event::InviteDelete(e) => one(HandlerCall::InviteDelete { data: e }),
        Event::MessageCreate(_) => Vec::new(),
        Event::MessageDeleteBulk(e) => {
            one(
                HandlerCall::MessageDeleteBulk {
                    channel_id: e.channel_id,
                    deleted_message_ids: e.ids,
                    guild_id: e.guild_id,
                },
            )
        },
        Event::MessageDelete(e) => {
            one(
                HandlerCall::MessageDelete {
                    channel_id: e.channel_id,
                    deleted_message_id: e.message_id,
                    guild_id: e.guild_id,
                },
            )
        },
        Event::MessageUpdate(e) => {
            let old = e.update(cache);
            let new = cache.message(e.channel_id, e.id);
            one(HandlerCall::MessageUpdate { old, new, event: e })
        },
        Event::PresencesReplace(e) => {
            let _ = e.update(cache);
            one(HandlerCall::PresenceReplace { presences: e.presences })
        },
        Event::PresenceUpdate(e) => {
            let _ = e.update(cache);
            one(HandlerCall::PresenceUpdate { new_data: e.presence })
        },
        Event::ReactionAdd(e) => one(HandlerCall::ReactionAdd { add_reaction: e.reaction }),
        Event::ReactionRemove(e) => {
            one(HandlerCall::ReactionRemove { removed_reaction: e.reaction })
        },
        Event::ReactionRemoveAll(e) => {
            one(
                HandlerCall::ReactionRemoveAll {
                    channel_id: e.channel_id,
                    removed_from_message_id: e.message_id,
                },
            )
        },
        Event::Ready(e) => {
            let _ = e.update(cache);
            let mut calls: Vec<HandlerCall> = Vec::new();
            if let Some(total_shards) = cache.take_shards_ready() {
                calls.push(HandlerCall::ShardsReady { total_shards });
            }
            calls.push(HandlerCall::Ready { data_about_bot: e.ready });
            proof {
                let after = e.applied(old(cache)@);
                let call = HandlerCall::Ready { data_about_bot: e.ready };
                if after.shards_ready_due() {
                    assert(calls@ =~= seq![
                        HandlerCall::ShardsReady { total_shards: after.shards_total },
                        call,
                    ]);
                } else {
                    assert(calls@ =~= seq![call]);
                }
            }
            calls
        },
        Event::Resumed(e) => one(HandlerCall::Resume { event: e }),
        Event::TypingStart(e) => one(HandlerCall::TypingStart { event: e }),
        Event::Unknown => Vec::new(),
        Event::UserUpdate(e) => {
            let old = e.update(cache);
            one(HandlerCall::UserUpdate { old, new: e.current_user })
        },
        Event::VoiceServerUpdate(e) => one(HandlerCall::VoiceServerUpdate { event: e }),
        Event::VoiceStateUpdate(e) => {
            let old = e.update(cache);
            one(HandlerCall::VoiceStateUpdate { old, new: e.voice_state })
        },
        Event::WebhookUpdate(e) => {
            one(
                HandlerCall::WebhookUpdate {
                    guild_id: e.guild_id,
                    belongs_to_channel_id: e.channel_id,
                },
            )
        },
        Event::InteractionCreate(e) => {
            one(HandlerCall::InteractionCreate { interaction: e.interaction })
        },
        Event::IntegrationCreate(e) => {
            one(HandlerCall::IntegrationCreate { integration: e.integration })
        },
        Event::IntegrationUpdate(e) => {
            one(HandlerCall::IntegrationUpdate { integration: e.integration })
        },
        Event::IntegrationDelete(e) => {
            one(
                HandlerCall::IntegrationDelete {
                    integration_id: e.id,
                    guild_id: e.guild_id,
                    application_id: e.application_id,
                },
            )
        },
        Event::StageInstanceCreate(e) => {
            one(HandlerCall::StageInstanceCreate { stage_instance: e.stage_instance })
        },
        Event::StageInstanceUpdate(e) => {
            one(HandlerCall::StageInstanceUpdate { stage_instance: e.stage_instance })
        },
        Event::StageInstanceDelete(e) => {
            one(HandlerCall::StageInstanceDelete { stage_instance: e.stage_instance })
        },
        Event::ThreadCreate(e) => {
            let _ = e.update(cache);
            one(HandlerCall::ThreadCreate { thread: e.thread })
        },
        Event::ThreadUpdate(e) => {
            let _ = e.update(cache);
            one(HandlerCall::ThreadUpdate { thread: e.thread })
        },
        Event::ThreadDelete(e) => {
            let _ = e.update(cache);
            one(HandlerCall::ThreadDelete { thread: e.thread })
        },
        Event::ThreadListSync(e) => one(HandlerCall::ThreadListSync { thread_list_sync: e }),
        Event::ThreadMemberUpdate(e) => {
            one(HandlerCall::ThreadMemberUpdate { thread_member: e.member })
        },
        Event::ThreadMembersUpdate(e) => {
            one(HandlerCall::ThreadMembersUpdate { thread_members_update: e })
        },
        Event::GuildScheduledEventCreate(e) => {
            one(HandlerCall::GuildScheduledEventCreate { event: e.event })
        },
        Event::GuildScheduledEventUpdate(e) => {
            one(HandlerCall::GuildScheduledEventUpdate { event: e.event })
        },
        Event::GuildScheduledEventDelete(e) => {
            one(HandlerCall::GuildScheduledEventDelete { event: e.event })
        },
        Event::GuildScheduledEventUserAdd(e) => {
            one(HandlerCall::GuildScheduledEventUserAdd { subscribed: e })
        },
        Event::GuildScheduledEventUserRemove(e) => {
            one(HandlerCall::GuildScheduledEventUserRemove { unsubscribed: e })
        },
    };
    proof {
        assert(cache@ =~= handled(event, old(cache)@));
    }
    calls
}

/// Which of the three receivers of events are registered.
#[derive(Clone, Copy, Debug, PartialEq, Eq)]
pub struct Handlers {
    /// A command router, which gets every message that is posted.
    pub framework: bool,
    /// An event handler, which gets one call for each event, by kind.
    pub event_handler: bool,
    /// A raw event handler, which gets every event of the gateway whole.
    pub raw_event_handler: bool,
}

/// The work that one event asks for. Each piece is to be scheduled as a task of its
/// own, in this order: the raw event, the calls from first to last, the message for
/// the command router.
#[derive(Debug, PartialEq, Eq)]
pub struct Dispatched {
    /// The event for the raw event handler.
    pub raw: Option<Event>,
    /// The calls of the event handler.
    pub calls: Vec<HandlerCall>,
    /// The message for the command router.
    pub framework: Option<Message>,
}

/// The cache after [`dispatch`]: brought up to date with the event, whoever is
/// registered. Where an event handler is registered, a ready event also marks the
/// announcement that all shards are ready as made, if it is due.
pub open spec fn dispatched_cache(
    event: DispatchEvent,
    c: CacheState,
    handlers: Handlers,
) -> CacheState {
    match event {
        DispatchEvent::Model(Event::Ready(e)) => if handlers.event_handler {
            shards_ready_marked(e.applied(c))
        } else {
            e.applied(c)
        },
        _ => event.applied(c),
    }
}

/// Whether `raw` is what the raw event handler gets for `event`: the whole event
/// of the gateway where the handler is registered, and nothing otherwise.
pub open spec fn raw_delivered(
    event: DispatchEvent,
    handlers: Handlers,
    raw: Option<Event>,
) -> bool {
    match event {
        DispatchEvent::Model(e) => if handlers.raw_event_handler {
            &&& raw matches Some(delivered)
            &&& e.same(&delivered)
            &&& !handlers.event_handler ==> delivered == e
        } else {
            raw is None
        },
        DispatchEvent::Client(_) => raw is None,
    }
}

/// Whether `calls` are what the event handler gets for `event`: for a message
/// create the one call with the message, for any other event the calls of
/// [`routed`], and none where no event handler is registered.
pub open spec fn typed_delivered(
    event: DispatchEvent,
    c: CacheState,
    handlers: Handlers,
    calls: Seq<HandlerCall>,
) -> bool {
    if !handlers.event_handler {
        calls.len() == 0
    } else {
        match event {
            DispatchEvent::Model(Event::MessageCreate(e)) => calls == seq![
                HandlerCall::Message { new_message: e.message },
            ],
            _ => routed(event, c, calls),
        }
    }
}

/// The message that the command router gets for `event`: the message of a message
/// create where a router is registered.
pub open spec fn framework_message(event: DispatchEvent, handlers: Handlers) -> Option<Message> {
    match event {
        DispatchEvent::Model(Event::MessageCreate(e)) => if handlers.framework {
            Some(e.message)
        } else {
            None
        },
        _ => None,
    }
}

/// The call that hands a posted message to the event handler.
pub fn dispatch_message(message: Message) -> (call: HandlerCall)
    ensures
        call == (HandlerCall::Message { new_message: message }),
{
    HandlerCall::Message { new_message: message }
}

/// Takes one event through the cache and returns the work it asks for.
///
/// The cache is brought up to date exactly once, before anything is returned, so
/// every piece of work sees the cache after this event, and a value marked "old"
/// in a call is the value from before it. The raw event handler gets the whole
/// event; the event handler gets the calls that match the event's kind; the
/// command router gets the message of a message create. Each gets its own copy.
pub fn dispatch(event: DispatchEvent, cache: &mut Cache, handlers: Handlers) -> (work: Dispatched)
    requires
        old(cache)@.wf(),
    ensures
        final(cache)@.wf(),
        final(cache)@ == dispatched_cache(event, old(cache)@, handlers),
        raw_delivered(event, handlers, work.raw),
        typed_delivered(event, old(cache)@, handlers, work.calls@),
        work.framework == framework_message(event, handlers),
{
    match event {
        DispatchEvent::Client(e) => {
            let calls = if handlers.event_handler {
                handle_event(cache, DispatchEvent::Client(e))
            } else {
                Vec::new()
            };
            Dispatched { raw: None, calls, framework: None }
        },
        DispatchEvent::Model(Event::MessageCreate(e)) => {
            let _ = e.update(cache);
            let raw = if handlers.raw_event_handler {
                Some(Event::MessageCreate(e.clone()))
            } else {
                None
            };
            let calls = if handlers.event_handler {
                one(dispatch_message(e.message.clone()))
            } else {
                Vec::new()
            };
            let framework = if handlers.framework {
                Some(e.message)
            } else {
                None
            };
            Dispatched { raw, calls, framework }
        },
        DispatchEvent::Model(e) => {
            if handlers.event_handler {
                let raw = if handlers.raw_event_handler {
                    Some(e.clone())
                } else {
                    None
                };
                let calls = handle_event(cache, DispatchEvent::Model(e));
                Dispatched { raw, calls, framework: None }
            } else {
                e.update_cache(cache);
                let raw = if handlers.raw_event_handler {
                    Some(e)
                } else {
                    None
                };
                Dispatched { raw, calls: Vec::new(), framework: None }
            }
        },
    }
}

} // verus!
