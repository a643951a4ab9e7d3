use event_dispatch::cache::event::CacheUpdate as Update;
use event_dispatch::cache::settings::Settings as CacheSettings;
use event_dispatch::cache::table::GuildTable;
use event_dispatch::cache::Cache as Store;
use event_dispatch::model::channel::{
    Channel as AnyChannel,
    ChannelType as Kind,
    GuildChannel as Room,
    Message as Note,
};
use event_dispatch::model::colour::Colour as Tint;
use event_dispatch::model::event::{
    ChannelCreateEvent as ChannelMade,
    ChannelDeleteEvent as ChannelGone,
    GuildCreateEvent as GuildMade,
    GuildEmojisUpdateEvent,
    GuildMemberAddEvent as MemberJoined,
    GuildMemberRemoveEvent,
    GuildMembersChunkEvent,
    GuildRoleCreateEvent as RoleMade,
    GuildRoleDeleteEvent,
    GuildStickersUpdateEvent,
    MessageCreateEvent as NotePosted,
    MessageUpdateEvent as NoteEdited,
    PresenceUpdateEvent,
    PresencesReplaceEvent,
    ThreadCreateEvent,
    ThreadDeleteEvent,
    ThreadUpdateEvent,
};
use event_dispatch::model::guild::{Emoji, Guild as Server, Member as Person, Role as Rank, Sticker};
use event_dispatch::model::id::{
    ChannelId as RoomId,
    EmojiId,
    GuildId as ServerId,
    MessageId as NoteId,
    RoleId as RankId,
    StickerId,
    UserId as PersonId,
};
use event_dispatch::model::user::{OnlineStatus, Presence, User as Account};

fn rank(id: u64, name: &str) -> Rank {
    Rank {
        id: RankId(id),
        guild_id: ServerId(1),
        name: name.to_string(),
        colour: Tint(0),
        hoist: false,
        mentionable: false,
    }
}

fn person(id: u64, name: &str) -> Person {
    Person {
        guild_id: ServerId(1),
        user: Account { id: PersonId(id), name: name.to_string(), bot: false },
        nick: None,
        deaf: false,
        mute: false,
        pending: false,
    }
}

fn note(id: u64, room: u64, content: &str) -> Note {
    Note {
        id: NoteId(id),
        channel_id: RoomId(room),
        guild_id: None,
        author: Account { id: PersonId(3), name: "ann".to_string(), bot: false },
        content: content.to_string(),
    }
}

fn room(id: u64, name: &str) -> Room {
    Room { id: RoomId(id), guild_id: ServerId(1), kind: Kind::Text, name: name.to_string(), parent_id: None }
}

fn keeping(max_messages: usize) -> Store {
    Store::new_with_settings(CacheSettings { max_messages, time_to_live: 3600, cache_guilds: true })
}

#[test]
fn the_first_settings_keep_no_messages_and_keep_guilds() {
    let settings = CacheSettings::default();
    assert_eq!(settings.max_messages, 0);
    assert_eq!(settings.time_to_live, 3600);
    assert!(settings.cache_guilds);
    assert_eq!(CacheSettings::new(), settings);
    assert_eq!(Store::new().settings(), settings);
}

#[test]
fn a_new_cache_holds_nothing() {
    let cache = Store::new();
    assert_eq!(cache.guild(ServerId(1)), None);
    assert!(cache.guild_ids().is_empty());
    assert!(cache.all_guilds_available());
    assert_eq!(cache.channel(RoomId(1)), None);
    assert_eq!(cache.role(ServerId(1), RankId(1)), None);
    assert_eq!(cache.member(ServerId(1), PersonId(1)), None);
    assert_eq!(cache.message(RoomId(1), NoteId(1)), None);
    assert_eq!(cache.presence(PersonId(1)), None);
    assert_eq!(cache.voice_state(PersonId(1)), None);
    assert_eq!(cache.current_user(), None);
    assert_eq!(cache.shard_total(), 0);
}

#[test]
fn a_create_event_that_comes_twice_leaves_the_cache_as_after_the_first() {
    let mut once = Store::new();
    let mut twice = Store::new();
    let event = RoleMade { role: rank(7, "mods") };
    assert_eq!(event.update(&mut once), None);
    assert_eq!(event.update(&mut twice), None);
    assert_eq!(event.update(&mut twice), Some(rank(7, "mods")));
    assert_eq!(once.role(ServerId(1), RankId(7)), twice.role(ServerId(1), RankId(7)));

    let made = GuildMade {
        guild: Server { id: ServerId(1), name: "one".to_string(), owner_id: PersonId(9), member_count: 5 },
    };
    assert_eq!(made.update(&mut once), None);
    assert_eq!(made.update(&mut twice), None);
    assert_eq!(made.update(&mut twice), Some(made.guild.clone()));
    assert_eq!(once.guild_ids(), twice.guild_ids());
    assert_eq!(once.guild(ServerId(1)), twice.guild(ServerId(1)));

    let channel = ChannelMade { channel: AnyChannel::Guild(room(4, "general")) };
    assert_eq!(channel.update(&mut once), None);
    assert_eq!(channel.update(&mut twice), None);
    assert_eq!(channel.update(&mut twice), Some(AnyChannel::Guild(room(4, "general"))));
    assert_eq!(once.channel(RoomId(4)), twice.channel(RoomId(4)));
}

#[test]
fn a_cache_that_keeps_no_guilds_keeps_none() {
    let mut cache =
        Store::new_with_settings(CacheSettings { max_messages: 0, time_to_live: 1, cache_guilds: false });
    let made = GuildMade {
        guild: Server { id: ServerId(1), name: "one".to_string(), owner_id: PersonId(9), member_count: 5 },
    };
    assert_eq!(made.update(&mut cache), None);
    assert_eq!(made.update(&mut cache), None);
    assert_eq!(cache.guild(ServerId(1)), None);
}

#[test]
fn roles_are_kept_by_guild() {
    let mut cache = Store::new();
    RoleMade { role: rank(7, "mods") }.update(&mut cache);
    let elsewhere = Rank { guild_id: ServerId(2), ..rank(7, "admins") };
    RoleMade { role: elsewhere.clone() }.update(&mut cache);
    assert_eq!(cache.role(ServerId(1), RankId(7)), Some(rank(7, "mods")));
    assert_eq!(cache.role(ServerId(2), RankId(7)), Some(elsewhere));

    let gone = GuildRoleDeleteEvent { guild_id: ServerId(1), role_id: RankId(7) };
    assert_eq!(gone.update(&mut cache), Some(rank(7, "mods")));
    assert_eq!(gone.update(&mut cache), None);
    assert_eq!(cache.role(ServerId(1), RankId(7)), None);
    assert!(cache.role(ServerId(2), RankId(7)).is_some());
}

#[test]
fn members_come_and_go() {
    let mut cache = Store::new();
    assert_eq!(MemberJoined { member: person(3, "ann") }.update(&mut cache), None);
    assert_eq!(cache.member(ServerId(1), PersonId(3)), Some(person(3, "ann")));
    let left = GuildMemberRemoveEvent { guild_id: ServerId(1), user: person(3, "ann").user };
    assert_eq!(left.update(&mut cache), Some(person(3, "ann")));
    assert_eq!(left.update(&mut cache), None);
    assert_eq!(cache.member(ServerId(1), PersonId(3)), None);
}

#[test]
fn a_chunk_of_members_is_entered_in_order_and_the_last_of_a_user_stays() {
    let mut cache = Store::new();
    MemberJoined { member: person(3, "old ann") }.update(&mut cache);
    let chunk = GuildMembersChunkEvent {
        guild_id: ServerId(1),
        members: vec![person(3, "ann"), person(4, "bob"), person(4, "rob")],
        chunk_index: 0,
        chunk_count: 1,
    };
    assert_eq!(chunk.update(&mut cache), None);
    assert_eq!(cache.member(ServerId(1), PersonId(3)), Some(person(3, "ann")));
    assert_eq!(cache.member(ServerId(1), PersonId(4)), Some(person(4, "rob")));
}

#[test]
fn the_message_queue_of_a_channel_drops_its_oldest_when_full() {
    let mut cache = keeping(2);
    assert_eq!(NotePosted { message: note(1, 4, "one") }.update(&mut cache), None);
    assert_eq!(NotePosted { message: note(2, 4, "two") }.update(&mut cache), None);
    assert_eq!(NotePosted { message: note(5, 9, "other room") }.update(&mut cache), None);
    assert_eq!(NotePosted { message: note(3, 4, "three") }.update(&mut cache), Some(note(1, 4, "one")));
    assert_eq!(cache.message_count(RoomId(4)), 2);
    assert_eq!(cache.message_count(RoomId(9)), 1);
    assert_eq!(cache.message(RoomId(4), NoteId(1)), None);
    assert_eq!(cache.message(RoomId(4), NoteId(2)), Some(note(2, 4, "two")));
    assert_eq!(cache.message(RoomId(4), NoteId(3)), Some(note(3, 4, "three")));
}

#[test]
fn a_cache_that_keeps_no_messages_keeps_none() {
    let mut cache = keeping(0);
    assert_eq!(NotePosted { message: note(1, 4, "one") }.update(&mut cache), None);
    assert_eq!(cache.message_count(RoomId(4)), 0);
    assert_eq!(cache.message(RoomId(4), NoteId(1)), None);
}

#[test]
fn a_message_update_edits_the_message_in_its_place() {
    let mut cache = keeping(5);
    NotePosted { message: note(1, 4, "one") }.update(&mut cache);
    NotePosted { message: note(2, 4, "two") }.update(&mut cache);
    let edit = NoteEdited {
        id: NoteId(2),
        channel_id: RoomId(4),
        guild_id: None,
        content: Some("second".to_string()),
    };
    assert_eq!(edit.update(&mut cache), Some(note(2, 4, "two")));
    assert_eq!(cache.message(RoomId(4), NoteId(2)), Some(note(2, 4, "second")));
    assert_eq!(cache.message(RoomId(4), NoteId(1)), Some(note(1, 4, "one")));
    assert_eq!(cache.message_count(RoomId(4)), 2);

    let nothing = NoteEdited { id: NoteId(2), channel_id: RoomId(4), guild_id: None, content: None };
    assert_eq!(nothing.update(&mut cache), Some(note(2, 4, "second")));
    assert_eq!(cache.message(RoomId(4), NoteId(2)), Some(note(2, 4, "second")));

    let unknown = NoteEdited {
        id: NoteId(8),
        channel_id: RoomId(4),
        guild_id: None,
        content: Some("x".to_string()),
    };
    assert_eq!(unknown.update(&mut cache), None);
    let elsewhere = NoteEdited {
        id: NoteId(2),
        channel_id: RoomId(5),
        guild_id: None,
        content: Some("x".to_string()),
    };
    assert_eq!(elsewhere.update(&mut cache), None);
}

#[test]
fn deleting_a_channel_takes_its_messages_along() {
    let mut cache = keeping(5);
    ChannelMade { channel: AnyChannel::Guild(room(4, "general")) }.update(&mut cache);
    NotePosted { message: note(1, 4, "one") }.update(&mut cache);
    let gone = ChannelGone { channel: AnyChannel::Guild(room(4, "general")) };
    assert_eq!(gone.update(&mut cache), Some(vec![note(1, 4, "one")]));
    assert_eq!(gone.update(&mut cache), None);
    assert_eq!(cache.channel(RoomId(4)), None);
    assert_eq!(cache.message(RoomId(4), NoteId(1)), None);
}

#[test]
fn threads_are_kept_as_channels() {
    let mut cache = Store::new();
    assert_eq!(ThreadCreateEvent { thread: room(50, "thread") }.update(&mut cache), None);
    assert_eq!(
        ThreadUpdateEvent { thread: room(50, "renamed") }.update(&mut cache),
        Some(room(50, "thread"))
    );
    assert_eq!(cache.channel(RoomId(50)), Some(room(50, "renamed")));
    assert_eq!(
        ThreadDeleteEvent { thread: room(50, "renamed") }.update(&mut cache),
        Some(room(50, "renamed"))
    );
    assert_eq!(cache.channel(RoomId(50)), None);
}

#[test]
fn presences_are_replaced_as_a_whole() {
    let mut cache = Store::new();
    let online = Presence { user_id: PersonId(3), guild_id: None, status: OnlineStatus::Online };
    let idle = Presence { user_id: PersonId(4), guild_id: None, status: OnlineStatus::Idle };
    let away = Presence { user_id: PersonId(4), guild_id: None, status: OnlineStatus::Offline };
    assert_eq!(PresenceUpdateEvent { presence: online }.update(&mut cache), None);
    assert_eq!(PresenceUpdateEvent { presence: online }.update(&mut cache), Some(online));
    assert_eq!(PresencesReplaceEvent { presences: vec![idle, away] }.update(&mut cache), None);
    assert_eq!(cache.presence(PersonId(3)), None);
    assert_eq!(cache.presence(PersonId(4)), Some(away));
}

#[test]
fn emojis_and_stickers_of_a_guild_are_taken_without_a_prior_value() {
    let mut cache = Store::new();
    let emojis = GuildEmojisUpdateEvent {
        guild_id: ServerId(1),
        emojis: vec![Emoji { id: EmojiId(1), name: "wave".to_string(), animated: false }],
    };
    assert_eq!(emojis.update(&mut cache), None);
    assert_eq!(emojis.update(&mut cache), None);
    let stickers = GuildStickersUpdateEvent {
        guild_id: ServerId(1),
        stickers: vec![Sticker { id: StickerId(1), name: "cat".to_string() }],
    };
    assert_eq!(stickers.update(&mut cache), None);
}

#[test]
fn a_guild_table_finds_values_by_guild_and_key() {
    let mut table: GuildTable<u8> = GuildTable::new();
    assert_eq!(table.get(1, 2), None);
    assert_eq!(table.insert(1, 2, 10), None);
    assert_eq!(table.insert(1, 2, 11), Some(10));
    assert_eq!(table.insert(2, 2, 20), None);
    assert_eq!(table.get(1, 2), Some(&11));
    assert_eq!(table.get(2, 2), Some(&20));
    assert_eq!(table.get(1, 3), None);
    assert_eq!(table.remove(1, 3), None);
    assert_eq!(table.remove(3, 3), None);
    assert_eq!(table.remove(1, 2), Some(11));
    assert_eq!(table.get(1, 2), None);
    table.remove_guild(2);
    assert_eq!(table.get(2, 2), None);
}
