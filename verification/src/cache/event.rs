//! How each kind of event changes the cache.
//!
//! For each kind of event that the cache follows, `applied` gives the cache after
//! the event and `is_prior` what the cache hands back: the value the event
//! replaced or removed. An event of any other kind leaves the cache as it is.

use vstd::prelude::*;
use crate::cache::table::{lookup, with_entry, without_entry};
use crate::cache::{lemma_place_unique, Cache, CacheState};
use crate::model::channel::{Channel, GuildChannel, Message};
use crate::model::event::{
    ChannelCreateEvent,
    ChannelDeleteEvent,
    ChannelUpdateEvent,
    Event,
    GuildCreateEvent,
    GuildDeleteEvent,
    GuildEmojisUpdateEvent,
    GuildMemberAddEvent,
    GuildMemberRemoveEvent,
    GuildMemberUpdateEvent,
    GuildMembersChunkEvent,
    GuildRoleCreateEvent,
    GuildRoleDeleteEvent,
    GuildRoleUpdateEvent,
    GuildStickersUpdateEvent,
    GuildUpdateEvent,
    MessageCreateEvent,
    MessageUpdateEvent,
    PresenceUpdateEvent,
    PresencesReplaceEvent,
    ReadyEvent,
    ThreadCreateEvent,
    ThreadDeleteEvent,
    ThreadUpdateEvent,
    UserUpdateEvent,
    VoiceStateUpdateEvent,
};
use crate::model::guild::{Guild, Member, Role, UnavailableGuild};
use crate::model::user::{CurrentUser, Presence};
use crate::model::voice::VoiceState;

verus! {

broadcast use vstd::std_specs::hash::group_hash_axioms;

/// An event that the cache follows.
pub trait CacheUpdate {
    /// What the cache hands back: what the event replaced or removed.
    type Output;

    /// The cache after the event.
    spec fn applied(&self, c: CacheState) -> CacheState;

    /// Whether `out` is what the event replaces or removes in `c`.
    spec fn is_prior(&self, c: CacheState, out: Option<Self::Output>) -> bool;

    /// Brings the cache up to date with the event, and returns what the event
    /// replaced or removed; none where the cache held nothing of it.
    fn update(&self, cache: &mut Cache) -> (out: Option<Self::Output>)
        requires
            old(cache)@.wf(),
        ensures
            final(cache)@.wf(),
            final(cache)@ == self.applied(old(cache)@),
            self.is_prior(old(cache)@, out),
    ;
}

/// The value under `k`, if the map holds one.
pub open spec fn entry<V>(m: Map<u64, V>, k: u64) -> Option<V> {
    if m.contains_key(k) {
        Some(m[k])
    } else {
        None
    }
}

/// The cache with the channel entered, if it is a guild's; a private channel is
/// not kept.
pub open spec fn channel_entered(c: CacheState, channel: Channel) -> CacheState {
    match channel {
        Channel::Guild(ch) => CacheState { channels: c.channels.insert(ch.id.0, ch), ..c },
        Channel::Private(_) => c,
    }
}

/// The channel that the cache holds under the identifier of `channel`.
pub open spec fn channel_before(c: CacheState, channel: Channel) -> Option<Channel> {
    match channel {
        Channel::Guild(ch) => match entry(c.channels, ch.id.0) {
            Some(before) => Some(Channel::Guild(before)),
            None => None,
        },
        Channel::Private(_) => None,
    }
}

fn enter_channel(cache: &mut Cache, channel: &Channel) -> (out: Option<Channel>)
    requires
        old(cache)@.wf(),
    ensures
        final(cache)@.wf(),
        final(cache)@ == channel_entered(old(cache)@, *channel),
        out == channel_before(old(cache)@, *channel),
{
    match channel {
        Channel::Guild(ch) => {
            let before = cache.channels.insert(ch.id.0, ch.clone());
            assert(cache@ =~= channel_entered(old(cache)@, *channel));
            match before {
                Some(b) => Some(Channel::Guild(b)),
                None => None,
            }
        },
        Channel::Private(_) => None,
    }
}

/// The cache with the thread entered as a channel.
pub open spec fn thread_entered(c: CacheState, thread: GuildChannel) -> CacheState {
    CacheState { channels: c.channels.insert(thread.id.0, thread), ..c }
}

fn enter_thread(cache: &mut Cache, thread: &GuildChannel) -> (out: Option<GuildChannel>)
    requires
        old(cache)@.wf(),
    ensures
        final(cache)@.wf(),
        final(cache)@ == thread_entered(old(cache)@, *thread),
        out == entry(old(cache)@.channels, thread.id.0),
{
    let before = cache.channels.insert(thread.id.0, thread.clone());
    assert(cache@ =~= thread_entered(old(cache)@, *thread));
    before
}

/// The cache with the role entered under its guild.
pub open spec fn role_entered(c: CacheState, role: Role) -> CacheState {
    CacheState { roles: with_entry(c.roles, role.guild_id.0, role.id.0, role), ..c }
}

fn enter_role(cache: &mut Cache, role: &Role) -> (out: Option<Role>)
    requires
        old(cache)@.wf(),
    ensures
        final(cache)@.wf(),
        final(cache)@ == role_entered(old(cache)@, *role),
        out == lookup(old(cache)@.roles, role.guild_id.0, role.id.0),
{
    let before = cache.roles.insert(role.guild_id.0, role.id.0, role.clone());
    assert(cache@ =~= role_entered(old(cache)@, *role));
    before
}

impl CacheUpdate for ChannelCreateEvent {
    type Output = Channel;

    open spec fn applied(&self, c: CacheState) -> CacheState {
        channel_entered(c, self.channel)
    }

    open spec fn is_prior(&self, c: CacheState, out: Option<Channel>) -> bool {
        out == channel_before(c, self.channel)
    }

    fn update(&self, cache: &mut Cache) -> (out: Option<Channel>) {
        enter_channel(cache, &self.channel)
    }
}

impl CacheUpdate for ChannelUpdateEvent {
    type Output = Channel;

    open spec fn applied(&self, c: CacheState) -> CacheState {
        channel_entered(c, self.channel)
    }

    open spec fn is_prior(&self, c: CacheState, out: Option<Channel>) -> bool {
        out == channel_before(c, self.channel)
    }

    fn update(&self, cache: &mut Cache) -> (out: Option<Channel>) {
        enter_channel(cache, &self.channel)
    }
}

impl CacheUpdate for ChannelDeleteEvent {
    /// The messages that were kept for the channel, oldest first.
    type Output = Vec<Message>;

    open spec fn applied(&self, c: CacheState) -> CacheState {
        match self.channel {
            Channel::Guild(ch) => CacheState {
                channels: c.channels.remove(ch.id.0),
                messages: c.messages.remove(ch.id.0),
                ..c
            },
            Channel::Private(_) => c,
        }
    }

    open spec fn is_prior(&self, c: CacheState, out: Option<Vec<Message>>) -> bool {
        match self.channel {
            Channel::Guild(ch) => match out {
                Some(kept) => c.messages.contains_key(ch.id.0) && kept@ == c.messages[ch.id.0],
                None => !c.messages.contains_key(ch.id.0),
            },
            Channel::Private(_) => out is None,
        }
    }

    fn update(&self, cache: &mut Cache) -> (out: Option<Vec<Message>>) {
        match &self.channel {
            Channel::Guild(ch) => {
                let kept = cache.messages.remove(&ch.id.0);
                let _ = cache.channels.remove(&ch.id.0);
                assert(cache@ =~= self.applied(old(cache)@));
                kept
            },
            Channel::Private(_) => None,
        }
    }
}

impl CacheUpdate for ThreadCreateEvent {
    type Output = GuildChannel;

    open spec fn applied(&self, c: CacheState) -> CacheState {
        thread_entered(c, self.thread)
    }

    open spec fn is_prior(&self, c: CacheState, out: Option<GuildChannel>) -> bool {
        out == entry(c.channels, self.thread.id.0)
    }

    fn update(&self, cache: &mut Cache) -> (out: Option<GuildChannel>) {
        enter_thread(cache, &self.thread)
    }
}

impl CacheUpdate for ThreadUpdateEvent {
    type Output = GuildChannel;

    open spec fn applied(&self, c: CacheState) -> CacheState {
        thread_entered(c, self.thread)
    }

    open spec fn is_prior(&self, c: CacheState, out: Option<GuildChannel>) -> bool {
        out == entry(c.channels, self.thread.id.0)
    }

    fn update(&self, cache: &mut Cache) -> (out: Option<GuildChannel>) {
        enter_thread(cache, &self.thread)
    }
}

impl CacheUpdate for ThreadDeleteEvent {
    type Output = GuildChannel;

    open spec fn applied(&self, c: CacheState) -> CacheState {
        CacheState { channels: c.channels.remove(self.thread.id.0), ..c }
    }

    open spec fn is_prior(&self, c: CacheState, out: Option<GuildChannel>) -> bool {
        out == entry(c.channels, self.thread.id.0)
    }

    fn update(&self, cache: &mut Cache) -> (out: Option<GuildChannel>) {
        let before = cache.channels.remove(&self.thread.id.0);
        assert(cache@ =~= self.applied(old(cache)@));
        before
    }
}

impl CacheUpdate for GuildCreateEvent {
    type Output = Guild;

    open spec fn applied(&self, c: CacheState) -> CacheState {
        CacheState {
            unavailable_guilds: c.unavailable_guilds.remove(self.guild.id.0),
            guilds: if c.settings.cache_guilds {
                c.guilds.insert(self.guild.id.0, self.guild)
            } else {
                c.guilds
            },
            ..c
        }
    }

    open spec fn is_prior(&self, c: CacheState, out: Option<Guild>) -> bool {
        out == if c.settings.cache_guilds {
            entry(c.guilds, self.guild.id.0)
        } else {
            None
        }
    }

    fn update(&self, cache: &mut Cache) -> (out: Option<Guild>) {
        let _ = cache.unavailable_guilds.remove(&self.guild.id.0);
        let before = if cache.settings.cache_guilds {
            cache.guilds.insert(self.guild.id.0, self.guild.clone())
        } else {
            None
        };
        assert(cache@ =~= self.applied(old(cache)@));
        before
    }
}

impl CacheUpdate for GuildDeleteEvent {
    type Output = Guild;

    open spec fn applied(&self, c: CacheState) -> CacheState {
        CacheState {
            guilds: c.guilds.remove(self.guild.id.0),
            unavailable_guilds: if self.guild.unavailable {
                c.unavailable_guilds.insert(self.guild.id.0)
            } else {
                c.unavailable_guilds
            },
            roles: c.roles.remove(self.guild.id.0),
            members: c.members.remove(self.guild.id.0),
            emojis: c.emojis.remove(self.guild.id.0),
            stickers: c.stickers.remove(self.guild.id.0),
            ..c
        }
    }

    open spec fn is_prior(&self, c: CacheState, out: Option<Guild>) -> bool {
        out == entry(c.guilds, self.guild.id.0)
    }

    fn update(&self, cache: &mut Cache) -> (out: Option<Guild>) {
        let id = self.guild.id.0;
        let before = cache.guilds.remove(&id);
        if self.guild.unavailable {
            let _ = cache.unavailable_guilds.insert(id);
        }
        cache.roles.remove_guild(id);
        cache.members.remove_guild(id);
        let _ = cache.emojis.remove(&id);
        let _ = cache.stickers.remove(&id);
        assert(cache@ =~= self.applied(old(cache)@));
        before
    }
}

impl CacheUpdate for GuildUpdateEvent {
    type Output = Guild;

    open spec fn applied(&self, c: CacheState) -> CacheState {
        if c.guilds.contains_key(self.guild.id.0) {
            CacheState {
                guilds: c.guilds.insert(
                    self.guild.id.0,
                    Guild {
                        name: self.guild.name,
                        owner_id: self.guild.owner_id,
                        ..c.guilds[self.guild.id.0]
                    },
                ),
                ..c
            }
        } else {
            c
        }
    }

    open spec fn is_prior(&self, c: CacheState, out: Option<Guild>) -> bool {
        out == entry(c.guilds, self.guild.id.0)
    }

    fn update(&self, cache: &mut Cache) -> (out: Option<Guild>) {
        match cache.guilds.remove(&self.guild.id.0) {
            Some(before) => {
                let after = Guild {
                    id: before.id,
                    name: self.guild.name.clone(),
                    owner_id: self.guild.owner_id,
                    member_count: before.member_count,
                };
                let _ = cache.guilds.insert(self.guild.id.0, after);
                assert(cache@ =~= self.applied(old(cache)@));
                Some(before)
            },
            None => {
                assert(cache@ =~= old(cache)@);
                None
            },
        }
    }
}

impl CacheUpdate for GuildEmojisUpdateEvent {
    type Output = ();

    open spec fn applied(&self, c: CacheState) -> CacheState {
        CacheState { emojis: c.emojis.insert(self.guild_id.0, self.emojis@), ..c }
    }

    open spec fn is_prior(&self, c: CacheState, out: Option<()>) -> bool {
        out is None
    }

    fn update(&self, cache: &mut Cache) -> (out: Option<()>) {
        let _ = cache.emojis.insert(self.guild_id.0, self.emojis.clone());
        assert(cache@ =~= self.applied(old(cache)@));
        None
    }
}

impl CacheUpdate for GuildStickersUpdateEvent {
    type Output = ();

    open spec fn applied(&self, c: CacheState) -> CacheState {
        CacheState { stickers: c.stickers.insert(self.guild_id.0, self.stickers@), ..c }
    }

    open spec fn is_prior(&self, c: CacheState, out: Option<()>) -> bool {
        out is None
    }

    fn update(&self, cache: &mut Cache) -> (out: Option<()>) {
        let _ = cache.stickers.insert(self.guild_id.0, self.stickers.clone());
        assert(cache@ =~= self.applied(old(cache)@));
        None
    }
}

impl CacheUpdate for GuildMemberAddEvent {
    type Output = Member;

    open spec fn applied(&self, c: CacheState) -> CacheState {
        CacheState {
            members: with_entry(
                c.members,
                self.member.guild_id.0,
                self.member.user.id.0,
                self.member,
            ),
            ..c
        }
    }

    open spec fn is_prior(&self, c: CacheState, out: Option<Member>) -> bool {
        out == lookup(c.members, self.member.guild_id.0, self.member.user.id.0)
    }

    fn update(&self, cache: &mut Cache) -> (out: Option<Member>) {
        let before = cache.members.insert(
            self.member.guild_id.0,
            self.member.user.id.0,
            self.member.clone(),
        );
        assert(cache@ =~= self.applied(old(cache)@));
        before
    }
}

impl CacheUpdate for GuildMemberRemoveEvent {
    type Output = Member;

    open spec fn applied(&self, c: CacheState) -> CacheState {
        CacheState { members: without_entry(c.members, self.guild_id.0, self.user.id.0), ..c }
    }

    open spec fn is_prior(&self, c: CacheState, out: Option<Member>) -> bool {
        out == lookup(c.members, self.guild_id.0, self.user.id.0)
    }

    fn update(&self, cache: &mut Cache) -> (out: Option<Member>) {
        let before = cache.members.remove(self.guild_id.0, self.user.id.0);
        assert(cache@ =~= self.applied(old(cache)@));
        before
    }
}

impl GuildMemberUpdateEvent {
    /// The member as the event describes it.
    pub open spec fn member(&self) -> Member {
        Member {
            guild_id: self.guild_id,
            user: self.user,
            nick: self.nick,
            deaf: self.deaf,
            mute: self.mute,
            pending: self.pending,
        }
    }
}

impl CacheUpdate for GuildMemberUpdateEvent {
    type Output = Member;

    open spec fn applied(&self, c: CacheState) -> CacheState {
        CacheState {
            members: with_entry(c.members, self.guild_id.0, self.user.id.0, self.member()),
            ..c
        }
    }

    open spec fn is_prior(&self, c: CacheState, out: Option<Member>) -> bool {
        out == lookup(c.members, self.guild_id.0, self.user.id.0)
    }

    fn update(&self, cache: &mut Cache) -> (out: Option<Member>) {
        let member = Member {
            guild_id: self.guild_id,
            user: self.user.clone(),
            nick: self.nick.clone(),
            deaf: self.deaf,
            mute: self.mute,
            pending: self.pending,
        };
        let before = cache.members.insert(self.guild_id.0, self.user.id.0, member);
        assert(cache@ =~= self.applied(old(cache)@));
        before
    }
}

/// The table after the members were entered under guild `g`, one after the other.
pub open spec fn members_entered(
    t: Map<u64, Map<u64, Member>>,
    g: u64,
    members: Seq<Member>,
) -> Map<u64, Map<u64, Member>>
    decreases members.len(),
{
    if members.len() == 0 {
        t
    } else {
        with_entry(
            members_entered(t, g, members.drop_last()),
            g,
            members.last().user.id.0,
            members.last(),
        )
    }
}

impl CacheUpdate for GuildMembersChunkEvent {
    type Output = ();

    open spec fn applied(&self, c: CacheState) -> CacheState {
        CacheState { members: members_entered(c.members, self.guild_id.0, self.members@), ..c }
    }

    open spec fn is_prior(&self, c: CacheState, out: Option<()>) -> bool {
        out is None
    }

    fn update(&self, cache: &mut Cache) -> (out: Option<()>) {
        let g = self.guild_id.0;
        let mut i: usize = 0;
        assert(cache@ =~= (CacheState {
            members: members_entered(old(cache)@.members, g, self.members@.take(0)),
            ..old(cache)@
        }));
        while i < self.members.len()
            invariant
                i <= self.members.len(),
                g == self.guild_id.0,
                cache@ == (CacheState {
                    members: members_entered(old(cache)@.members, g, self.members@.take(i as int)),
                    ..old(cache)@
                }),
            decreases self.members.len() - i,
        {
            let m = &self.members[i];
            let _ = cache.members.insert(g, m.user.id.0, m.clone());
            proof {
                let next = self.members@.take(i + 1);
                assert(next.drop_last() =~= self.members@.take(i as int));
                assert(next.last() == self.members@[i as int]);
                assert(cache@ =~= (CacheState {
                    members: members_entered(old(cache)@.members, g, next),
                    ..old(cache)@
                }));
            }
            i = i + 1;
        }
        assert(self.members@.take(i as int) =~= self.members@);
        None
    }
}

impl CacheUpdate for GuildRoleCreateEvent {
    type Output = Role;

    open spec fn applied(&self, c: CacheState) -> CacheState {
        role_entered(c, self.role)
    }

    open spec fn is_prior(&self, c: CacheState, out: Option<Role>) -> bool {
        out == lookup(c.roles, self.role.guild_id.0, self.role.id.0)
    }

    fn update(&self, cache: &mut Cache) -> (out: Option<Role>) {
        enter_role(cache, &self.role)
    }
}

impl CacheUpdate for GuildRoleUpdateEvent {
    type Output = Role;

    open spec fn applied(&self, c: CacheState) -> CacheState {
        role_entered(c, self.role)
    }

    open spec fn is_prior(&self, c: CacheState, out: Option<Role>) -> bool {
        out == lookup(c.roles, self.role.guild_id.0, self.role.id.0)
    }

    fn update(&self, cache: &mut Cache) -> (out: Option<Role>) {
        enter_role(cache, &self.role)
    }
}

impl CacheUpdate for GuildRoleDeleteEvent {
    type Output = Role;

    open spec fn applied(&self, c: CacheState) -> CacheState {
        CacheState { roles: without_entry(c.roles, self.guild_id.0, self.role_id.0), ..c }
    }

    open spec fn is_prior(&self, c: CacheState, out: Option<Role>) -> bool {
        out == lookup(c.roles, self.guild_id.0, self.role_id.0)
    }

    fn update(&self, cache: &mut Cache) -> (out: Option<Role>) {
        let before = cache.roles.remove(self.guild_id.0, self.role_id.0);
        assert(cache@ =~= self.applied(old(cache)@));
        before
    }
}

/// A channel's queue after `m` arrived: `m` at the end, and the oldest message
/// dropped where the queue was full.
pub open spec fn queue_after(q: Seq<Message>, max: usize, m: Message) -> Seq<Message> {
    if q.len() >= max {
        q.remove(0).push(m)
    } else {
        q.push(m)
    }
}

impl CacheUpdate for MessageCreateEvent {
    /// The message that was dropped to make room.
    type Output = Message;

    open spec fn applied(&self, c: CacheState) -> CacheState {
        if c.settings.max_messages == 0 {
            c
        } else {
            CacheState {
                messages: c.messages.insert(
                    self.message.channel_id.0,
                    queue_after(
                        c.queue(self.message.channel_id.0),
                        c.settings.max_messages,
                        self.message,
                    ),
                ),
                ..c
            }
        }
    }

    open spec fn is_prior(&self, c: CacheState, out: Option<Message>) -> bool {
        out == if c.settings.max_messages != 0 && c.queue(self.message.channel_id.0).len()
            >= c.settings.max_messages {
            Some(c.queue(self.message.channel_id.0)[0])
        } else {
            None
        }
    }

    fn update(&self, cache: &mut Cache) -> (out: Option<Message>) {
        let max = cache.settings.max_messages;
        if max == 0 {
            return None;
        }
        let ch = self.message.channel_id.0;
        let mut queue = match cache.messages.remove(&ch) {
            Some(q) => q,
            None => Vec::new(),
        };
        assert(queue@ =~= old(cache)@.queue(ch));
        assert(old(cache)@.messages.contains_key(ch) ==> queue@.len() <= max);
        let dropped = if queue.len() >= max {
            Some(queue.remove(0))
        } else {
            None
        };
        queue.push(self.message.clone());
        let _ = cache.messages.insert(ch, queue);
        assert(cache@ =~= self.applied(old(cache)@));
        assert forall|k: u64| #[trigger]
            cache@.messages.contains_key(k) implies cache@.messages[k].len()
            <= cache@.settings.max_messages by {
            if k != ch {
                assert(old(cache)@.messages.contains_key(k));
            }
        }
        dropped
    }
}

impl MessageUpdateEvent {
    /// The message `before` with the changes of this event.
    pub open spec fn edited(&self, before: Message) -> Message {
        Message {
            content: match self.content {
                Some(content) => content,
                None => before.content,
            },
            ..before
        }
    }
}

impl CacheUpdate for MessageUpdateEvent {
    /// The message as it was before the edit.
    type Output = Message;

    open spec fn applied(&self, c: CacheState) -> CacheState {
        if c.has_message(self.channel_id.0, self.id) {
            let p = c.place_of(self.channel_id.0, self.id);
            CacheState {
                messages: c.messages.insert(
                    self.channel_id.0,
                    c.queue(self.channel_id.0).update(
                        p,
                        self.edited(c.queue(self.channel_id.0)[p]),
                    ),
                ),
                ..c
            }
        } else {
            c
        }
    }

    open spec fn is_prior(&self, c: CacheState, out: Option<Message>) -> bool {
        out == c.message(self.channel_id.0, self.id)
    }

    fn update(&self, cache: &mut Cache) -> (out: Option<Message>) {
        let ch = self.channel_id.0;
        let mut queue = match cache.messages.remove(&ch) {
            Some(q) => q,
            None => {
                assert(cache@ =~= old(cache)@);
                assert(old(cache)@.queue(ch).len() == 0);
                return None;
            },
        };
        assert(queue@ == old(cache)@.queue(ch));
        let mut i: usize = 0;
        let mut found = false;
        while i < queue.len() && !found
            invariant
                i <= queue.len(),
                queue@ == old(cache)@.queue(ch),
                forall|j: int| 0 <= j < i ==> queue@[j].id != self.id,
                found ==> i < queue.len() && queue@[i as int].id == self.id,
            decreases queue.len() - i + if found { 0int } else { 1int },
        {
            if queue[i].id == self.id {
                found = true;
            } else {
                i = i + 1;
            }
        }
        let before = if found {
            let before = queue[i].clone();
            let content = match &self.content {
                Some(content) => content.clone(),
                None => before.content.clone(),
            };
            let after = Message {
                id: before.id,
                channel_id: before.channel_id,
                guild_id: before.guild_id,
                author: before.author.clone(),
                content,
            };
            proof {
                assert(old(cache)@.is_place_of(ch, self.id, i as int));
                lemma_place_unique(
                    old(cache)@,
                    ch,
                    self.id,
                    i as int,
                    old(cache)@.place_of(ch, self.id),
                );
                assert(after == self.edited(before));
            }
            queue[i] = after;
            Some(before)
        } else {
            assert(!old(cache)@.has_message(ch, self.id));
            None
        };
        let _ = cache.messages.insert(ch, queue);
        assert(cache@ =~= self.applied(old(cache)@));
        assert forall|k: u64| #[trigger]
            cache@.messages.contains_key(k) implies cache@.messages[k].len()
            <= cache@.settings.max_messages by {
            assert(old(cache)@.messages.contains_key(k));
        }
        before
    }
}

impl CacheUpdate for PresenceUpdateEvent {
    type Output = Presence;

    open spec fn applied(&self, c: CacheState) -> CacheState {
        CacheState { presences: c.presences.insert(self.presence.user_id.0, self.presence), ..c }
    }

    open spec fn is_prior(&self, c: CacheState, out: Option<Presence>) -> bool {
        out == entry(c.presences, self.presence.user_id.0)
    }

    fn update(&self, cache: &mut Cache) -> (out: Option<Presence>) {
        let before = cache.presences.insert(self.presence.user_id.0, self.presence);
        assert(cache@ =~= self.applied(old(cache)@));
        before
    }
}

/// The presences after the given ones were entered, one after the other.
pub open spec fn presences_entered(t: Map<u64, Presence>, presences: Seq<Presence>) -> Map<
    u64,
    Presence,
>
    decreases presences.len(),
{
    if presences.len() == 0 {
        t
    } else {
        presences_entered(t, presences.drop_last()).insert(
            presences.last().user_id.0,
            presences.last(),
        )
    }
}

impl CacheUpdate for PresencesReplaceEvent {
    type Output = ();

    open spec fn applied(&self, c: CacheState) -> CacheState {
        CacheState { presences: presences_entered(Map::empty(), self.presences@), ..c }
    }

    open spec fn is_prior(&self, c: CacheState, out: Option<()>) -> bool {
        out is None
    }

    fn update(&self, cache: &mut Cache) -> (out: Option<()>) {
        cache.presences.clear();
        let mut i: usize = 0;
        assert(cache@ =~= (CacheState {
            presences: presences_entered(Map::empty(), self.presences@.take(0)),
            ..old(cache)@
        }));
        while i < self.presences.len()
            invariant
                i <= self.presences.len(),
                cache@ == (CacheState {
                    presences: presences_entered(Map::empty(), self.presences@.take(i as int)),
                    ..old(cache)@
                }),
            decreases self.presences.len() - i,
        {
            let p = self.presences[i];
            let _ = cache.presences.insert(p.user_id.0, p);
            proof {
                let next = self.presences@.take(i + 1);
                assert(next.drop_last() =~= self.presences@.take(i as int));
                assert(next.last() == self.presences@[i as int]);
                assert(cache@ =~= (CacheState {
                    presences: presences_entered(Map::empty(), next),
                    ..old(cache)@
                }));
            }
            i = i + 1;
        }
        assert(self.presences@.take(i as int) =~= self.presences@);
        None
    }
}

/// The identifiers of the given guilds.
pub open spec fn announced(guilds: Seq<UnavailableGuild>) -> Set<u64> {
    Set::new(|g: u64| exists|i: int| 0 <= i < guilds.len() && #[trigger] guilds[i].id.0 == g)
}

proof fn lemma_announced_step(guilds: Seq<UnavailableGuild>, i: int)
    requires
        0 <= i < guilds.len(),
    ensures
        announced(guilds.take(i + 1)) == announced(guilds.take(i)).insert(guilds[i].id.0),
{
    let a = announced(guilds.take(i + 1));
    let b = announced(guilds.take(i)).insert(guilds[i].id.0);
    assert forall|g: u64| a.contains(g) <==> b.contains(g) by {
        if a.contains(g) {
            let j = choose|j: int|
                0 <= j < guilds.take(i + 1).len() && #[trigger] guilds.take(i + 1)[j].id.0 == g;
            if j < i {
                assert(guilds.take(i)[j].id.0 == g);
            }
        }
        if b.contains(g) {
            if g == guilds[i].id.0 {
                assert(guilds.take(i + 1)[i].id.0 == g);
            } else {
                let j = choose|j: int|
                    0 <= j < guilds.take(i).len() && #[trigger] guilds.take(i)[j].id.0 == g;
                assert(guilds.take(i + 1)[j].id.0 == g);
            }
        }
    }
    assert(a =~= b);
}

impl CacheUpdate for ReadyEvent {
    type Output = ();

    open spec fn applied(&self, c: CacheState) -> CacheState {
        CacheState {
            user: Some(self.ready.user),
            unavailable_guilds: c.unavailable_guilds.union(announced(self.ready.guilds@)),
            guilds: c.guilds.remove_keys(announced(self.ready.guilds@)),
            shards_total: match self.ready.shard {
                Some(info) => info.total,
                None => c.shards_total,
            },
            shards_connected: match self.ready.shard {
                Some(info) => c.shards_connected.insert(info.id.0),
                None => c.shards_connected,
            },
            ..c
        }
    }

    open spec fn is_prior(&self, c: CacheState, out: Option<()>) -> bool {
        out is None
    }

    fn update(&self, cache: &mut Cache) -> (out: Option<()>) {
        cache.user = Some(self.ready.user.clone());
        if let Some(info) = self.ready.shard {
            cache.shards_total = info.total;
            let _ = cache.shards_connected.insert(info.id.0);
        }
        let ghost start = cache@;
        let mut i: usize = 0;
        assert(announced(self.ready.guilds@.take(0)) =~= Set::<u64>::empty());
        assert(cache@ =~= (CacheState {
            unavailable_guilds: start.unavailable_guilds.union(
                announced(self.ready.guilds@.take(0)),
            ),
            guilds: start.guilds.remove_keys(announced(self.ready.guilds@.take(0))),
            ..start
        }));
        while i < self.ready.guilds.len()
            invariant
                i <= self.ready.guilds.len(),
                cache@ == (CacheState {
                    unavailable_guilds: start.unavailable_guilds.union(
                        announced(self.ready.guilds@.take(i as int)),
                    ),
                    guilds: start.guilds.remove_keys(announced(self.ready.guilds@.take(i as int))),
                    ..start
                }),
            decreases self.ready.guilds.len() - i,
        {
            let id = self.ready.guilds[i].id.0;
            let _ = cache.unavailable_guilds.insert(id);
            let _ = cache.guilds.remove(&id);
            proof {
                lemma_announced_step(self.ready.guilds@, i as int);
                assert(cache@ =~= (CacheState {
                    unavailable_guilds: start.unavailable_guilds.union(
                        announced(self.ready.guilds@.take(i + 1)),
                    ),
                    guilds: start.guilds.remove_keys(announced(self.ready.guilds@.take(i + 1))),
                    ..start
                }));
            }
            i = i + 1;
        }
        assert(self.ready.guilds@.take(i as int) =~= self.ready.guilds@);
        assert(cache@ =~= self.applied(old(cache)@));
        None
    }
}

impl CacheUpdate for UserUpdateEvent {
    type Output = CurrentUser;

    open spec fn applied(&self, c: CacheState) -> CacheState {
        CacheState { user: Some(self.current_user), ..c }
    }

    open spec fn is_prior(&self, c: CacheState, out: Option<CurrentUser>) -> bool {
        out == c.user
    }

    fn update(&self, cache: &mut Cache) -> (out: Option<CurrentUser>) {
        let before = cache.user.take();
        cache.user = Some(self.current_user.clone());
        assert(cache@ =~= self.applied(old(cache)@));
        before
    }
}

impl CacheUpdate for VoiceStateUpdateEvent {
    type Output = VoiceState;

    open spec fn applied(&self, c: CacheState) -> CacheState {
        CacheState {
            voice_states: if self.voice_state.channel_id is Some {
                c.voice_states.insert(self.voice_state.user_id.0, self.voice_state)
            } else {
                c.voice_states.remove(self.voice_state.user_id.0)
            },
            ..c
        }
    }

    open spec fn is_prior(&self, c: CacheState, out: Option<VoiceState>) -> bool {
        out == entry(c.voice_states, self.voice_state.user_id.0)
    }

    fn update(&self, cache: &mut Cache) -> (out: Option<VoiceState>) {
        let before = if self.voice_state.channel_id.is_some() {
            cache.voice_states.insert(self.voice_state.user_id.0, self.voice_state)
        } else {
            cache.voice_states.remove(&self.voice_state.user_id.0)
        };
        assert(cache@ =~= self.applied(old(cache)@));
        before
    }
}

impl Event {
    /// The cache after the event: what the event's own kind makes of it, and the
    /// cache as it was for a kind that the cache does not follow.
    pub open spec fn applied(&self, c: CacheState) -> CacheState {
        match *self {
            Event::ChannelCreate(e) => e.applied(c),
            Event::ChannelDelete(e) => e.applied(c),
            Event::ChannelUpdate(e) => e.applied(c),
            Event::GuildCreate(e) => e.applied(c),
            Event::GuildDelete(e) => e.applied(c),
            Event::GuildEmojisUpdate(e) => e.applied(c),
            Event::GuildMemberAdd(e) => e.applied(c),
            Event::GuildMemberRemove(e) => e.applied(c),
            Event::GuildMemberUpdate(e) => e.applied(c),
            Event::GuildMembersChunk(e) => e.applied(c),
            Event::GuildRoleCreate(e) => e.applied(c),
            Event::GuildRoleDelete(e) => e.applied(c),
            Event::GuildRoleUpdate(e) => e.applied(c),
            Event::GuildStickersUpdate(e) => e.applied(c),
            Event::GuildUpdate(e) => e.applied(c),
            Event::MessageCreate(e) => e.applied(c),
            Event::MessageUpdate(e) => e.applied(c),
            Event::PresencesReplace(e) => e.applied(c),
            Event::PresenceUpdate(e) => e.applied(c),
            Event::Ready(e) => e.applied(c),
            Event::UserUpdate(e) => e.applied(c),
            Event::VoiceStateUpdate(e) => e.applied(c),
            Event::ThreadCreate(e) => e.applied(c),
            Event::ThreadUpdate(e) => e.applied(c),
            Event::ThreadDelete(e) => e.applied(c),
            _ => c,
        }
    }

    /// Brings the cache up to date with the event, whatever its kind.
    pub fn update_cache(&self, cache: &mut Cache)
        requires
            old(cache)@.wf(),
        ensures
            final(cache)@.wf(),
            final(cache)@ == self.applied(old(cache)@),
    {
        match self {
            Event::ChannelCreate(e) => {
                let _ = e.update(cache);
            },
            Event::ChannelDelete(e) => {
                let _ = e.update(cache);
            },
            Event::ChannelUpdate(e) => {
                let _ = e.update(cache);
            },
            Event::GuildCreate(e) => {
                let _ = e.update(cache);
            },
            Event::GuildDelete(e) => {
                let _ = e.update(cache);
            },
            Event::GuildEmojisUpdate(e) => {
                let _ = e.update(cache);
            },
            Event::GuildMemberAdd(e) => {
                let _ = e.update(cache);
            },
            Event::GuildMemberRemove(e) => {
                let _ = e.update(cache);
            },
            Event::GuildMemberUpdate(e) => {
                let _ = e.update(cache);
            },
            Event::GuildMembersChunk(e) => {
                let _ = e.update(cache);
            },
            Event::GuildRoleCreate(e) => {
                let _ = e.update(cache);
            },
            Event::GuildRoleDelete(e) => {
                let _ = e.update(cache);
            },
            Event::GuildRoleUpdate(e) => {
                let _ = e.update(cache);
            },
            Event::GuildStickersUpdate(e) => {
                let _ = e.update(cache);
            },
            Event::GuildUpdate(e) => {
                let _ = e.update(cache);
            },
            Event::MessageCreate(e) => {
                let _ = e.update(cache);
            },
            Event::MessageUpdate(e) => {
                let _ = e.update(cache);
            },
            Event::PresencesReplace(e) => {
                let _ = e.update(cache);
            },
            Event::PresenceUpdate(e) => {
                let _ = e.update(cache);
            },
            Event::Ready(e) => {
                let _ = e.update(cache);
            },
            Event::UserUpdate(e) => {
                let _ = e.update(cache);
            },
            Event::VoiceStateUpdate(e) => {
                let _ = e.update(cache);
            },
            Event::ThreadCreate(e) => {
                let _ = e.update(cache);
            },
            Event::ThreadUpdate(e) => {
                let _ = e.update(cache);
            },
            Event::ThreadDelete(e) => {
                let _ = e.update(cache);
            },
            _ => {},
        }
    }
}

} // verus!
