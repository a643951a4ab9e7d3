//! The cache: what the event stream has told of guilds, channels, members and the
//! rest, kept current event by event.
//!
//! [`CacheState`] is the cache as a mathematical value; every operation is stated
//! over it. [`Cache`] is the store itself. The events that change it are in
//! [`event`].

pub mod event;
pub mod laws;
pub mod settings;
pub mod table;

use vstd::prelude::*;
use std::collections::HashMap;
use std::collections::HashSet;
use vstd::std_specs::iter::IteratorSpec;
use crate::cache::settings::Settings;
use crate::cache::table::{lookup, GuildTable};
use crate::model::channel::{GuildChannel, Message};
use crate::model::guild::{Emoji, Guild, Member, Role, Sticker};
use crate::model::id::{ChannelId, GuildId, MessageId, RoleId, ShardId, UserId};
use crate::model::user::{CurrentUser, Presence};
use crate::model::voice::VoiceState;

verus! {

broadcast use vstd::std_specs::hash::group_hash_axioms;

/// What a cache holds, as a value.
#[verifier::ext_equal]
pub struct CacheState {
    pub settings: Settings,
    /// The guilds that are available, by identifier.
    pub guilds: Map<u64, Guild>,
    /// The guilds that are known to exist but have not arrived, or have dropped out.
    pub unavailable_guilds: Set<u64>,
    /// The channels and threads of guilds, by identifier.
    pub channels: Map<u64, GuildChannel>,
    /// The roles, by guild and by identifier.
    pub roles: Map<u64, Map<u64, Role>>,
    /// The members, by guild and by user.
    pub members: Map<u64, Map<u64, Member>>,
    /// The messages kept for each channel, oldest first.
    pub messages: Map<u64, Seq<Message>>,
    /// The presences, by user.
    pub presences: Map<u64, Presence>,
    /// The voice connections, by user.
    pub voice_states: Map<u64, VoiceState>,
    /// The emojis of each guild.
    pub emojis: Map<u64, Seq<Emoji>>,
    /// The stickers of each guild.
    pub stickers: Map<u64, Seq<Sticker>>,
    /// The connection's own user, once a shard is ready.
    pub user: Option<CurrentUser>,
    /// How many shards there are in all.
    pub shards_total: u32,
    /// The shards that have reported ready.
    pub shards_connected: Set<u32>,
    /// Whether it has been announced that all shards are ready.
    pub has_sent_shards_ready: bool,
}

impl CacheState {
    /// No channel holds more messages than the settings allow.
    pub open spec fn wf(self) -> bool {
        forall|ch: u64| #[trigger]
            self.messages.contains_key(ch) ==> self.messages[ch].len()
                <= self.settings.max_messages
    }

    /// The state of a cache that has seen no event.
    pub open spec fn empty(settings: Settings) -> CacheState {
        CacheState {
            settings,
            guilds: Map::empty(),
            unavailable_guilds: Set::empty(),
            channels: Map::empty(),
            roles: Map::empty(),
            members: Map::empty(),
            messages: Map::empty(),
            presences: Map::empty(),
            voice_states: Map::empty(),
            emojis: Map::empty(),
            stickers: Map::empty(),
            user: None,
            shards_total: 0,
            shards_connected: Set::empty(),
            has_sent_shards_ready: false,
        }
    }

    /// The messages kept for channel `ch`; none where the channel has no entry.
    pub open spec fn queue(self, ch: u64) -> Seq<Message> {
        if self.messages.contains_key(ch) {
            self.messages[ch]
        } else {
            Seq::empty()
        }
    }

    /// The place of the message `id` among those kept for channel `ch`: the first
    /// place that holds a message of that identifier.
    pub open spec fn is_place_of(self, ch: u64, id: MessageId, p: int) -> bool {
        &&& 0 <= p < self.queue(ch).len()
        &&& self.queue(ch)[p].id == id
        &&& forall|j: int| 0 <= j < p ==> self.queue(ch)[j].id != id
    }

    /// Whether a message `id` is kept for channel `ch`.
    pub open spec fn has_message(self, ch: u64, id: MessageId) -> bool {
        exists|p: int| self.is_place_of(ch, id, p)
    }

    /// The place of the message `id` among those kept for channel `ch`.
    pub open spec fn place_of(self, ch: u64, id: MessageId) -> int {
        choose|p: int| self.is_place_of(ch, id, p)
    }

    /// The message `id` of channel `ch`, if it is kept.
    pub open spec fn message(self, ch: u64, id: MessageId) -> Option<Message> {
        if self.has_message(ch, id) {
            Some(self.queue(ch)[self.place_of(ch, id)])
        } else {
            None
        }
    }

    /// Whether every shard has reported ready and that has not been announced yet.
    pub open spec fn shards_ready_due(self) -> bool {
        self.shards_connected.len() == self.shards_total && !self.has_sent_shards_ready
    }
}

/// A message has at most one place in a channel's queue.
pub proof fn lemma_place_unique(c: CacheState, ch: u64, id: MessageId, p: int, q: int)
    requires
        c.is_place_of(ch, id, p),
        c.is_place_of(ch, id, q),
    ensures
        p == q,
{
}

/// The store itself.
pub struct Cache {
    settings: Settings,
    guilds: HashMap<u64, Guild>,
    unavailable_guilds: HashSet<u64>,
    channels: HashMap<u64, GuildChannel>,
    roles: GuildTable<Role>,
    members: GuildTable<Member>,
    messages: HashMap<u64, Vec<Message>>,
    presences: HashMap<u64, Presence>,
    voice_states: HashMap<u64, VoiceState>,
    emojis: HashMap<u64, Vec<Emoji>>,
    stickers: HashMap<u64, Vec<Sticker>>,
    user: Option<CurrentUser>,
    shards_total: u32,
    shards_connected: HashSet<u32>,
    has_sent_shards_ready: bool,
}

impl View for Cache {
    type V = CacheState;

    closed spec fn view(&self) -> CacheState {
        CacheState {
            settings: self.settings,
            guilds: self.guilds@,
            unavailable_guilds: self.unavailable_guilds@,
            channels: self.channels@,
            roles: self.roles@,
            members: self.members@,
            messages: self.messages@.map_values(|v: Vec<Message>| v@),
            presences: self.presences@,
            voice_states: self.voice_states@,
            emojis: self.emojis@.map_values(|v: Vec<Emoji>| v@),
            stickers: self.stickers@.map_values(|v: Vec<Sticker>| v@),
            user: self.user,
            shards_total: self.shards_total,
            shards_connected: self.shards_connected@,
            has_sent_shards_ready: self.has_sent_shards_ready,
        }
    }
}

impl Cache {
    /// A cache with the first settings, that has seen no event.
    pub fn new() -> (r: Self)
        ensures
            r@ == CacheState::empty(Settings::initial()),
            r@.wf(),
    {
        Cache::new_with_settings(Settings::new())
    }

    /// A cache with the given settings, that has seen no event.
    pub fn new_with_settings(settings: Settings) -> (r: Self)
        ensures
            r@ == CacheState::empty(settings),
            r@.wf(),
    {
        let r = Cache {
            settings,
            guilds: HashMap::new(),
            unavailable_guilds: HashSet::new(),
            channels: HashMap::new(),
            roles: GuildTable::new(),
            members: GuildTable::new(),
            messages: HashMap::new(),
            presences: HashMap::new(),
            voice_states: HashMap::new(),
            emojis: HashMap::new(),
            stickers: HashMap::new(),
            user: None,
            shards_total: 0,
            shards_connected: HashSet::new(),
            has_sent_shards_ready: false,
        };
        assert(r@ =~= CacheState::empty(settings));
        r
    }

    /// The cache's settings.
    pub fn settings(&self) -> (r: Settings)
        ensures
            r == self@.settings,
    {
        self.settings
    }

    /// The guild `id`, if it is available.
    pub fn guild(&self, id: GuildId) -> (r: Option<Guild>)
        ensures
            r == if self@.guilds.contains_key(id.0) {
                Some(self@.guilds[id.0])
            } else {
                None
            },
    {
        match self.guilds.get(&id.0) {
            Some(g) => Some(g.clone()),
            None => None,
        }
    }

    /// The identifiers of the guilds that are available, each once, in no
    /// particular order.
    pub fn guild_ids(&self) -> (r: Vec<GuildId>)
        ensures
            r@.no_duplicates(),
            forall|g: GuildId| r@.contains(g) <==> self@.guilds.contains_key(g.0),
            r@.len() == self@.guilds.dom().len(),
    {
        let mut out: Vec<GuildId> = Vec::new();
        for k in it: self.guilds.keys()
            invariant
                out@.len() == it.index(),
                forall|j: int| 0 <= j < out@.len() ==> out@[j].0 == *it.seq()[j],
        {
            out.push(GuildId(*k));
        }
        proof {
            vstd::std_specs::hash::axiom_spec_keys_iter(&self.guilds);
            let keys = self.guilds.keys().remaining().unref();
            assert(out@.len() == keys.len());
            assert forall|j: int| 0 <= j < out@.len() implies out@[j].0 == keys[j] by {}
            assert forall|i: int, j: int|
                0 <= i < out@.len() && 0 <= j < out@.len() && i != j implies out@[i]
                != out@[j] by {
                assert(keys[i] != keys[j]);
            }
            assert forall|g: GuildId| out@.contains(g) <==> self@.guilds.contains_key(g.0) by {
                if out@.contains(g) {
                    let j = choose|j: int| 0 <= j < out@.len() && out@[j] == g;
                    assert(keys[j] == g.0);
                    assert(keys.to_set().contains(g.0));
                }
                if self@.guilds.contains_key(g.0) {
                    assert(keys.to_set().contains(g.0));
                    let j = choose|j: int| 0 <= j < keys.len() && keys[j] == g.0;
                    assert(out@[j] == g);
                }
            }
        }
        out
    }

    /// Whether the guild `id` is known but unavailable.
    pub fn is_unavailable(&self, id: GuildId) -> (r: bool)
        ensures
            r == self@.unavailable_guilds.contains(id.0),
    {
        self.unavailable_guilds.contains(&id.0)
    }

    /// Whether no guild is unavailable.
    pub fn all_guilds_available(&self) -> (r: bool)
        ensures
            r == self@.unavailable_guilds.is_empty(),
    {
        self.unavailable_guilds.is_empty()
    }

    /// The channel or thread `id`, if it is kept.
    pub fn channel(&self, id: ChannelId) -> (r: Option<GuildChannel>)
        ensures
            r == if self@.channels.contains_key(id.0) {
                Some(self@.channels[id.0])
            } else {
                None
            },
    {
        match self.channels.get(&id.0) {
            Some(c) => Some(c.clone()),
            None => None,
        }
    }

    /// The role `id` of guild `guild_id`, if it is kept.
    pub fn role(&self, guild_id: GuildId, id: RoleId) -> (r: Option<Role>)
        ensures
            r == lookup(self@.roles, guild_id.0, id.0),
    {
        match self.roles.get(guild_id.0, id.0) {
            Some(x) => Some(x.clone()),
            None => None,
        }
    }

    /// The member `user_id` of guild `guild_id`, if it is kept.
    pub fn member(&self, guild_id: GuildId, user_id: UserId) -> (r: Option<Member>)
        ensures
            r == lookup(self@.members, guild_id.0, user_id.0),
    {
        match self.members.get(guild_id.0, user_id.0) {
            Some(x) => Some(x.clone()),
            None => None,
        }
    }

    /// The message `id` of channel `channel_id`, if it is kept.
    pub fn message(&self, channel_id: ChannelId, id: MessageId) -> (r: Option<Message>)
        ensures
            r == self@.message(channel_id.0, id),
    {
        match self.messages.get(&channel_id.0) {
            Some(queue) => {
                assert(queue@ == self@.queue(channel_id.0));
                let mut i: usize = 0;
                while i < queue.len()
                    invariant
                        i <= queue.len(),
                        queue@ == self@.queue(channel_id.0),
                        forall|j: int| 0 <= j < i ==> queue@[j].id != id,
                    decreases queue.len() - i,
                {
                    if queue[i].id == id {
                        proof {
                            assert(self@.is_place_of(channel_id.0, id, i as int));
                            lemma_place_unique(
                                self@,
                                channel_id.0,
                                id,
                                i as int,
                                self@.place_of(channel_id.0, id),
                            );
                        }
                        return Some(queue[i].clone());
                    }
                    i = i + 1;
                }
                None
            },
            None => None,
        }
    }

    /// How many messages are kept for channel `channel_id`.
    pub fn message_count(&self, channel_id: ChannelId) -> (r: usize)
        ensures
            r == self@.queue(channel_id.0).len(),
    {
        match self.messages.get(&channel_id.0) {
            Some(queue) => {
                assert(queue@ == self@.queue(channel_id.0));
                queue.len()
            },
            None => 0,
        }
    }

    /// The presence of user `id`, if one is kept.
    pub fn presence(&self, id: UserId) -> (r: Option<Presence>)
        ensures
            r == if self@.presences.contains_key(id.0) {
                Some(self@.presences[id.0])
            } else {
                None
            },
    {
        match self.presences.get(&id.0) {
            Some(p) => Some(*p),
            None => None,
        }
    }

    /// The voice connection of user `id`, if one is kept.
    pub fn voice_state(&self, id: UserId) -> (r: Option<VoiceState>)
        ensures
            r == if self@.voice_states.contains_key(id.0) {
                Some(self@.voice_states[id.0])
            } else {
                None
            },
    {
        match self.voice_states.get(&id.0) {
            Some(v) => Some(*v),
            None => None,
        }
    }

    /// The connection's own user, once a shard is ready.
    pub fn current_user(&self) -> (r: Option<CurrentUser>)
        ensures
            r == self@.user,
    {
        match &self.user {
            Some(u) => Some(u.clone()),
            None => None,
        }
    }

    /// How many shards there are in all.
    pub fn shard_total(&self) -> (r: u32)
        ensures
            r == self@.shards_total,
    {
        self.shards_total
    }

    /// Whether shard `id` has reported ready.
    pub fn is_shard_connected(&self, id: ShardId) -> (r: bool)
        ensures
            r == self@.shards_connected.contains(id.0),
    {
        self.shards_connected.contains(&id.0)
    }

    /// Announces that all shards are ready, if every shard has reported ready and
    /// it has not been announced before. Returns the number of shards when it is
    /// announced now: at most once in the life of a cache, however often it is asked.
    pub fn take_shards_ready(&mut self) -> (r: Option<u32>)
        ensures
            r == if old(self)@.shards_ready_due() {
                Some(old(self)@.shards_total)
            } else {
                None
            },
            final(self)@ == (CacheState {
                has_sent_shards_ready: old(self)@.has_sent_shards_ready || old(
                    self,
                )@.shards_ready_due(),
                ..old(self)@
            }),
    {
        if self.shards_connected.len() == self.shards_total as usize
            && !self.has_sent_shards_ready {
            self.has_sent_shards_ready = true;
            assert(self@ =~= (CacheState { has_sent_shards_ready: true, ..old(self)@ }));
            Some(self.shards_total)
        } else {
            assert(self@ =~= old(self)@);
            None
        }
    }
}

} // verus!
