//! What holds of the dispatcher whatever event arrives.

use vstd::prelude::*;
use crate::cache::event::{entry, CacheUpdate};
use crate::cache::laws::lemma_message_update_before_after;
use crate::cache::table::lookup;
use crate::cache::CacheState;
use crate::client::dispatch::{
    cache_ready_due,
    dispatched_cache,
    raw_delivered,
    shards_ready_marked,
    typed_delivered,
    DispatchEvent,
    Handlers,
};
use crate::client::event_handler::HandlerCall;
use crate::model::channel::{Channel, GuildChannel, Message};
use crate::model::event::{
    ChannelUpdateEvent,
    Event,
    GuildCreateEvent,
    GuildMemberUpdateEvent,
    GuildRoleUpdateEvent,
    GuildUpdateEvent,
    MessageUpdateEvent,
    ReadyEvent,
    UserUpdateEvent,
    VoiceStateUpdateEvent,
};
use crate::model::guild::{Guild, Member, Role};
use crate::model::user::CurrentUser;
use crate::model::voice::VoiceState;

verus! {

/// For a role update of a role `x` that the cache holds, the handler gets `x` as
/// the old role and the event's role as the new one, and the cache then holds the
/// event's role.
pub proof fn lemma_role_update_dispatch(
    c: CacheState,
    e: GuildRoleUpdateEvent,
    x: Role,
    handlers: Handlers,
    calls: Seq<HandlerCall>,
)
    requires
        handlers.event_handler,
        lookup(c.roles, e.role.guild_id.0, e.role.id.0) == Some(x),
        typed_delivered(DispatchEvent::Model(Event::GuildRoleUpdate(e)), c, handlers, calls),
    ensures
        calls == seq![HandlerCall::GuildRoleUpdate { old: Some(x), new: e.role }],
        lookup(
            dispatched_cache(DispatchEvent::Model(Event::GuildRoleUpdate(e)), c, handlers).roles,
            e.role.guild_id.0,
            e.role.id.0,
        ) == Some(e.role),
{
}

/// For a channel update of a guild channel `x` that the cache holds, the handler
/// gets `x` as the old channel and the event's channel as the new one, and the
/// cache then holds the event's channel.
pub proof fn lemma_channel_update_dispatch(
    c: CacheState,
    e: ChannelUpdateEvent,
    new: GuildChannel,
    x: GuildChannel,
    handlers: Handlers,
    calls: Seq<HandlerCall>,
)
    requires
        handlers.event_handler,
        e.channel == Channel::Guild(new),
        entry(c.channels, new.id.0) == Some(x),
        typed_delivered(DispatchEvent::Model(Event::ChannelUpdate(e)), c, handlers, calls),
    ensures
        calls == seq![HandlerCall::ChannelUpdate { old: Some(Channel::Guild(x)), new: e.channel }],
        entry(
            dispatched_cache(DispatchEvent::Model(Event::ChannelUpdate(e)), c, handlers).channels,
            new.id.0,
        ) == Some(new),
{
}

/// For a member update of a member `x` that the cache holds, the handler gets `x`
/// as the old member and the member as the event describes it as the new one, and
/// the cache then holds that member.
pub proof fn lemma_member_update_dispatch(
    c: CacheState,
    e: GuildMemberUpdateEvent,
    x: Member,
    handlers: Handlers,
    calls: Seq<HandlerCall>,
)
    requires
        handlers.event_handler,
        lookup(c.members, e.guild_id.0, e.user.id.0) == Some(x),
        typed_delivered(DispatchEvent::Model(Event::GuildMemberUpdate(e)), c, handlers, calls),
    ensures
        calls == seq![
            HandlerCall::GuildMemberUpdate { old: Some(x), new: Some(e.member()), event: e },
        ],
        lookup(
            dispatched_cache(
                DispatchEvent::Model(Event::GuildMemberUpdate(e)),
                c,
                handlers,
            ).members,
            e.guild_id.0,
            e.user.id.0,
        ) == Some(e.member()),
{
}

/// For a guild update of a guild `x` that the cache holds, the handler gets `x` as
/// the old guild, and the cache then holds the guild with the attributes that the
/// event carries.
pub proof fn lemma_guild_update_dispatch(
    c: CacheState,
    e: GuildUpdateEvent,
    x: Guild,
    handlers: Handlers,
    calls: Seq<HandlerCall>,
)
    requires
        handlers.event_handler,
        entry(c.guilds, e.guild.id.0) == Some(x),
        typed_delivered(DispatchEvent::Model(Event::GuildUpdate(e)), c, handlers, calls),
    ensures
        calls == seq![HandlerCall::GuildUpdate { old: Some(x), new: e.guild }],
        entry(
            dispatched_cache(DispatchEvent::Model(Event::GuildUpdate(e)), c, handlers).guilds,
            e.guild.id.0,
        ) == Some(Guild { name: e.guild.name, owner_id: e.guild.owner_id, ..x }),
{
}

/// For an update of the connection's own user, the handler gets the user that the
/// cache held as the old one, and the cache then holds the event's user.
pub proof fn lemma_user_update_dispatch(
    c: CacheState,
    e: UserUpdateEvent,
    x: CurrentUser,
    handlers: Handlers,
    calls: Seq<HandlerCall>,
)
    requires
        handlers.event_handler,
        c.user == Some(x),
        typed_delivered(DispatchEvent::Model(Event::UserUpdate(e)), c, handlers, calls),
    ensures
        calls == seq![HandlerCall::UserUpdate { old: Some(x), new: e.current_user }],
        dispatched_cache(DispatchEvent::Model(Event::UserUpdate(e)), c, handlers).user == Some(
            e.current_user,
        ),
{
}

/// For a voice state update of a user whose connection `x` the cache holds, the
/// handler gets `x` as the old connection and the event's as the new one.
pub proof fn lemma_voice_state_update_dispatch(
    c: CacheState,
    e: VoiceStateUpdateEvent,
    x: VoiceState,
    handlers: Handlers,
    calls: Seq<HandlerCall>,
)
    requires
        handlers.event_handler,
        entry(c.voice_states, e.voice_state.user_id.0) == Some(x),
        typed_delivered(DispatchEvent::Model(Event::VoiceStateUpdate(e)), c, handlers, calls),
    ensures
        calls == seq![HandlerCall::VoiceStateUpdate { old: Some(x), new: e.voice_state }],
{
}

/// For a message update of a message `x` that the cache holds, the handler gets
/// `x` as the old message and the edited message as the new one, and the cache
/// then holds the edited message.
pub proof fn lemma_message_update_dispatch(
    c: CacheState,
    e: MessageUpdateEvent,
    x: Message,
    handlers: Handlers,
    calls: Seq<HandlerCall>,
)
    requires
        handlers.event_handler,
        c.message(e.channel_id.0, e.id) == Some(x),
        typed_delivered(DispatchEvent::Model(Event::MessageUpdate(e)), c, handlers, calls),
    ensures
        calls == seq![
            HandlerCall::MessageUpdate { old: Some(x), new: Some(e.edited(x)), event: e },
        ],
        dispatched_cache(DispatchEvent::Model(Event::MessageUpdate(e)), c, handlers).message(
            e.channel_id.0,
            e.id,
        ) == Some(e.edited(x)),
{
    lemma_message_update_before_after(c, e, x, Some(x));
}

/// What the cache holds after an event does not depend on who is registered: but
/// for the mark that all shards were announced as ready, every choice of handlers
/// leaves the same cache.
pub proof fn lemma_cache_whoever_listens(
    event: DispatchEvent,
    c: CacheState,
    one: Handlers,
    other: Handlers,
)
    ensures
        (CacheState { has_sent_shards_ready: false, ..dispatched_cache(event, c, one) }) == (
        CacheState { has_sent_shards_ready: false, ..dispatched_cache(event, c, other) }),
        !(event is Model && event->Model_0 is Ready) ==> dispatched_cache(event, c, one)
            == event.applied(c),
        one.event_handler == other.event_handler ==> dispatched_cache(event, c, one)
            == dispatched_cache(event, c, other),
{
}

/// Where both handlers are registered, the raw event handler gets an event that
/// holds what the dispatched event holds, and the event handler gets the calls of
/// the event's kind.
pub proof fn lemma_both_handlers_are_served(
    e: Event,
    c: CacheState,
    handlers: Handlers,
    raw: Option<Event>,
    calls: Seq<HandlerCall>,
)
    requires
        handlers.event_handler,
        handlers.raw_event_handler,
        raw_delivered(DispatchEvent::Model(e), handlers, raw),
        typed_delivered(DispatchEvent::Model(e), c, handlers, calls),
        !(e is MessageCreate),
    ensures
        raw matches Some(delivered) && e.same(&delivered),
        crate::client::dispatch::routed(DispatchEvent::Model(e), c, calls),
{
}

/// That all shards are ready is announced once: when the announcement is marked
/// as made it is no longer due, and no event takes the mark away.
pub proof fn lemma_shards_ready_once(c: CacheState, event: Event)
    ensures
        !shards_ready_marked(c).shards_ready_due(),
        c.has_sent_shards_ready ==> event.applied(c).has_sent_shards_ready,
        c.has_sent_shards_ready ==> !event.applied(c).shards_ready_due(),
{
}

/// That the cache is ready is announced for a guild create event only if the
/// guild was unavailable and none is after the event; the next guild create event
/// does not announce it again.
pub proof fn lemma_cache_ready_once(c: CacheState, first: GuildCreateEvent, next: GuildCreateEvent)
    requires
        cache_ready_due(c, first),
    ensures
        first.applied(c).unavailable_guilds.is_empty(),
        !cache_ready_due(first.applied(c), next),
{
    assert(!first.applied(c).unavailable_guilds.contains(next.guild.id.0));
}

/// A ready event alone never takes a guild out of the set of unavailable ones.
pub proof fn lemma_ready_keeps_unavailable(c: CacheState, e: ReadyEvent, g: u64)
    requires
        c.unavailable_guilds.contains(g),
    ensures
        e.applied(c).unavailable_guilds.contains(g),
{
}

} // verus!
