//! What holds of the cache whatever events arrive.

use vstd::prelude::*;
use crate::cache::event::{channel_before, entry, CacheUpdate};
use crate::cache::table::{lemma_with_entry_idempotent, lookup};
use crate::cache::CacheState;
use crate::model::channel::{Channel, GuildChannel, Message};
use crate::model::event::{
    ChannelCreateEvent,
    ChannelUpdateEvent,
    GuildCreateEvent,
    GuildMemberUpdateEvent,
    GuildRoleCreateEvent,
    GuildRoleUpdateEvent,
    GuildUpdateEvent,
    MessageUpdateEvent,
    ThreadCreateEvent,
    ThreadUpdateEvent,
    UserUpdateEvent,
    VoiceStateUpdateEvent,
};
use crate::model::guild::{Guild, Member, Role};
use crate::model::user::CurrentUser;
use crate::model::voice::VoiceState;

verus! {

/// A role update for a role `x` that the cache holds hands back `x`, and leaves
/// the event's role in the cache.
pub proof fn lemma_role_update_before_after(
    c: CacheState,
    e: GuildRoleUpdateEvent,
    x: Role,
    out: Option<Role>,
)
    requires
        lookup(c.roles, e.role.guild_id.0, e.role.id.0) == Some(x),
        e.is_prior(c, out),
    ensures
        out == Some(x),
        lookup(e.applied(c).roles, e.role.guild_id.0, e.role.id.0) == Some(e.role),
{
}

/// A channel update for a guild channel `x` that the cache holds hands back `x`,
/// and leaves the event's channel in the cache.
pub proof fn lemma_channel_update_before_after(
    c: CacheState,
    e: ChannelUpdateEvent,
    new: GuildChannel,
    x: GuildChannel,
    out: Option<Channel>,
)
    requires
        e.channel == Channel::Guild(new),
        entry(c.channels, new.id.0) == Some(x),
        e.is_prior(c, out),
    ensures
        out == Some(Channel::Guild(x)),
        entry(e.applied(c).channels, new.id.0) == Some(new),
{
}

/// A thread update for a thread `x` that the cache holds hands back `x`, and
/// leaves the event's thread in the cache.
pub proof fn lemma_thread_update_before_after(
    c: CacheState,
    e: ThreadUpdateEvent,
    x: GuildChannel,
    out: Option<GuildChannel>,
)
    requires
        entry(c.channels, e.thread.id.0) == Some(x),
        e.is_prior(c, out),
    ensures
        out == Some(x),
        entry(e.applied(c).channels, e.thread.id.0) == Some(e.thread),
{
}

/// A member update for a member `x` that the cache holds hands back `x`, and
/// leaves the member as the event describes it in the cache.
pub proof fn lemma_member_update_before_after(
    c: CacheState,
    e: GuildMemberUpdateEvent,
    x: Member,
    out: Option<Member>,
)
    requires
        lookup(c.members, e.guild_id.0, e.user.id.0) == Some(x),
        e.is_prior(c, out),
    ensures
        out == Some(x),
        lookup(e.applied(c).members, e.guild_id.0, e.user.id.0) == Some(e.member()),
{
}

/// A guild update for a guild `x` that the cache holds hands back `x`, and leaves
/// the guild in the cache with the attributes that the event carries.
pub proof fn lemma_guild_update_before_after(
    c: CacheState,
    e: GuildUpdateEvent,
    x: Guild,
    out: Option<Guild>,
)
    requires
        entry(c.guilds, e.guild.id.0) == Some(x),
        e.is_prior(c, out),
    ensures
        out == Some(x),
        entry(e.applied(c).guilds, e.guild.id.0) == Some(
            Guild { name: e.guild.name, owner_id: e.guild.owner_id, ..x },
        ),
{
}

/// An update of the connection's own user hands back the user that the cache
/// held, and leaves the event's user in the cache.
pub proof fn lemma_user_update_before_after(
    c: CacheState,
    e: UserUpdateEvent,
    x: CurrentUser,
    out: Option<CurrentUser>,
)
    requires
        c.user == Some(x),
        e.is_prior(c, out),
    ensures
        out == Some(x),
        e.applied(c).user == Some(e.current_user),
{
}

/// A voice state update for a user whose connection `x` the cache holds hands
/// back `x`; the cache then holds the event's connection, or none where the user
/// has left voice.
pub proof fn lemma_voice_state_update_before_after(
    c: CacheState,
    e: VoiceStateUpdateEvent,
    x: VoiceState,
    out: Option<VoiceState>,
)
    requires
        entry(c.voice_states, e.voice_state.user_id.0) == Some(x),
        e.is_prior(c, out),
    ensures
        out == Some(x),
        entry(e.applied(c).voice_states, e.voice_state.user_id.0) == if e.voice_state.channel_id
            is Some {
            Some(e.voice_state)
        } else {
            None
        },
{
}

/// A message update for a message `x` that the cache holds hands back `x`, and
/// leaves the edited message in its place.
pub proof fn lemma_message_update_before_after(
    c: CacheState,
    e: MessageUpdateEvent,
    x: Message,
    out: Option<Message>,
)
    requires
        c.message(e.channel_id.0, e.id) == Some(x),
        e.is_prior(c, out),
    ensures
        out == Some(x),
        e.applied(c).message(e.channel_id.0, e.id) == Some(e.edited(x)),
{
    let ch = e.channel_id.0;
    let p = c.place_of(ch, e.id);
    let after = e.applied(c);
    assert(c.is_place_of(ch, e.id, p));
    assert(after.queue(ch) == c.queue(ch).update(p, e.edited(x)));
    assert(after.is_place_of(ch, e.id, p));
    crate::cache::lemma_place_unique(after, ch, e.id, p, after.place_of(ch, e.id));
}

/// A role create event that arrives twice leaves the cache as it was after the
/// first, and the second hands back the role of the first.
pub proof fn lemma_role_create_idempotent(c: CacheState, e: GuildRoleCreateEvent, out: Option<Role>)
    requires
        e.is_prior(e.applied(c), out),
    ensures
        e.applied(e.applied(c)) == e.applied(c),
        out == Some(e.role),
{
    lemma_with_entry_idempotent(c.roles, e.role.guild_id.0, e.role.id.0, e.role);
    assert(e.applied(e.applied(c)) =~~= e.applied(c));
}

/// A channel create event for a guild channel that arrives twice leaves the
/// cache as it was after the first, and the second hands back the channel of the
/// first.
pub proof fn lemma_channel_create_idempotent(
    c: CacheState,
    e: ChannelCreateEvent,
    new: GuildChannel,
    out: Option<Channel>,
)
    requires
        e.channel == Channel::Guild(new),
        e.is_prior(e.applied(c), out),
    ensures
        e.applied(e.applied(c)) == e.applied(c),
        out == Some(e.channel),
{
    assert(e.applied(e.applied(c)) =~= e.applied(c));
}

/// A thread create event that arrives twice leaves the cache as it was after the
/// first, and the second hands back the thread of the first.
pub proof fn lemma_thread_create_idempotent(
    c: CacheState,
    e: ThreadCreateEvent,
    out: Option<GuildChannel>,
)
    requires
        e.is_prior(e.applied(c), out),
    ensures
        e.applied(e.applied(c)) == e.applied(c),
        out == Some(e.thread),
{
    assert(e.applied(e.applied(c)) =~= e.applied(c));
}

/// A guild create event that arrives twice leaves the cache as it was after the
/// first; where the cache keeps guilds, the second hands back the guild of the
/// first.
pub proof fn lemma_guild_create_idempotent(c: CacheState, e: GuildCreateEvent, out: Option<Guild>)
    requires
        e.is_prior(e.applied(c), out),
    ensures
        e.applied(e.applied(c)) == e.applied(c),
        c.settings.cache_guilds ==> out == Some(e.guild),
{
    assert(e.applied(e.applied(c)) =~= e.applied(c));
}

} // verus!
