use event_dispatch::cache::event::CacheUpdate;
use event_dispatch::cache::settings::Settings;
use event_dispatch::cache::Cache;
use event_dispatch::client::bridge::gateway::event::{
    ClientEvent,
    ConnectionStage,
    ShardStageUpdateEvent,
};
use event_dispatch::client::dispatch::{
    dispatch,
    dispatch_message,
    handle_event,
    update_cache,
    DispatchEvent,
    Handlers,
};
use event_dispatch::client::event_handler::HandlerCall;
use event_dispatch::model::channel::{Channel, ChannelType, GuildChannel, Message, PrivateChannel};
use event_dispatch::model::colour::Colour;
use event_dispatch::model::event::{
    ChannelCreateEvent,
    ChannelDeleteEvent,
    ChannelUpdateEvent,
    Event,
    GuildBanAddEvent,
    GuildCreateEvent,
    GuildDeleteEvent,
    GuildMemberAddEvent,
    GuildMemberUpdateEvent,
    GuildRoleCreateEvent,
    GuildRoleUpdateEvent,
    GuildUpdateEvent,
    MessageCreateEvent,
    MessageUpdateEvent,
    ReadyEvent,
    TypingStartEvent,
    UserUpdateEvent,
    VoiceStateUpdateEvent,
};
use event_dispatch::model::gateway::{Ready, ShardInfo};
use event_dispatch::model::guild::{Guild, Member, PartialGuild, Role, UnavailableGuild};
use event_dispatch::model::id::{ChannelId, GuildId, MessageId, RoleId, ShardId, UserId};
use event_dispatch::model::user::{CurrentUser, User};
use event_dispatch::model::voice::VoiceState;

const NONE: Handlers = Handlers { framework: false, event_handler: false, raw_event_handler: false };
const TYPED: Handlers = Handlers { framework: false, event_handler: true, raw_event_handler: false };
const RAW: Handlers = Handlers { framework: false, event_handler: false, raw_event_handler: true };
const BOTH: Handlers = Handlers { framework: false, event_handler: true, raw_event_handler: true };

fn role(name: &str, colour: u32) -> Role {
    Role {
        id: RoleId(7),
        guild_id: GuildId(1),
        name: name.to_string(),
        colour: Colour(colour),
        hoist: false,
        mentionable: false,
    }
}

fn user(id: u64, name: &str) -> User {
    User { id: UserId(id), name: name.to_string(), bot: false }
}

fn message(id: u64, channel: u64, content: &str) -> Message {
    Message {
        id: MessageId(id),
        channel_id: ChannelId(channel),
        guild_id: Some(GuildId(1)),
        author: user(3, "ann"),
        content: content.to_string(),
    }
}

fn text_channel(id: u64, name: &str, kind: ChannelType) -> GuildChannel {
    GuildChannel {
        id: ChannelId(id),
        guild_id: GuildId(1),
        kind,
        name: name.to_string(),
        parent_id: None,
    }
}

fn guild(id: u64, name: &str) -> Guild {
    Guild { id: GuildId(id), name: name.to_string(), owner_id: UserId(9), member_count: 5 }
}

fn ready(guilds: Vec<u64>, shard: Option<(u32, u32)>) -> ReadyEvent {
    ReadyEvent {
        ready: Ready {
            user: CurrentUser { id: UserId(100), name: "bot".to_string(), verified: true },
            guilds: guilds
                .into_iter()
                .map(|id| UnavailableGuild { id: GuildId(id), unavailable: true })
                .collect(),
            shard: shard.map(|(id, total)| ShardInfo { id: ShardId(id), total }),
            session_id: "s".to_string(),
            version: 10,
        },
    }
}

#[test]
fn role_update_hands_the_cached_role_and_the_new_one_to_the_handler() {
    let mut cache = Cache::new();
    let old = role("Old", 1);
    let new = role("New", 2);
    GuildRoleCreateEvent { role: old.clone() }.update(&mut cache);

    let event = DispatchEvent::Model(Event::GuildRoleUpdate(GuildRoleUpdateEvent { role: new.clone() }));
    let work = dispatch(event, &mut cache, TYPED);

    assert_eq!(work.calls, vec![HandlerCall::GuildRoleUpdate { old: Some(old), new: new.clone() }]);
    assert_eq!(work.raw, None);
    assert_eq!(work.framework, None);
    assert_eq!(cache.role(GuildId(1), RoleId(7)), Some(new));
}

#[test]
fn role_update_for_a_role_that_is_not_cached_has_no_old_value() {
    let mut cache = Cache::new();
    let new = role("New", 2);
    let event = DispatchEvent::Model(Event::GuildRoleUpdate(GuildRoleUpdateEvent { role: new.clone() }));
    let work = dispatch(event, &mut cache, TYPED);
    assert_eq!(work.calls, vec![HandlerCall::GuildRoleUpdate { old: None, new: new.clone() }]);
    assert_eq!(cache.role(GuildId(1), RoleId(7)), Some(new));
}

#[test]
fn both_handlers_get_a_non_message_event_each_in_their_form() {
    let mut cache = Cache::new();
    let old = role("Old", 1);
    let new = role("New", 2);
    GuildRoleCreateEvent { role: old.clone() }.update(&mut cache);

    let event = Event::GuildRoleUpdate(GuildRoleUpdateEvent { role: new.clone() });
    let work = dispatch(DispatchEvent::Model(event.clone()), &mut cache, BOTH);

    assert_eq!(work.raw, Some(event));
    assert_eq!(work.calls, vec![HandlerCall::GuildRoleUpdate { old: Some(old), new: new.clone() }]);
    assert_eq!(work.framework, None);
    assert_eq!(cache.role(GuildId(1), RoleId(7)), Some(new));
}

#[test]
fn without_handlers_the_cache_is_updated_and_nothing_is_scheduled() {
    let mut cache = Cache::new();
    let new = role("New", 2);
    let event = DispatchEvent::Model(Event::GuildRoleUpdate(GuildRoleUpdateEvent { role: new.clone() }));
    let work = dispatch(event, &mut cache, NONE);
    assert_eq!(work.raw, None);
    assert!(work.calls.is_empty());
    assert_eq!(work.framework, None);
    assert_eq!(cache.role(GuildId(1), RoleId(7)), Some(new));
}

#[test]
fn the_raw_handler_alone_gets_the_whole_event() {
    let mut cache = Cache::new();
    let event = Event::GuildBanAdd(GuildBanAddEvent { guild_id: GuildId(1), user: user(5, "bob") });
    let work = dispatch(DispatchEvent::Model(event.clone()), &mut cache, RAW);
    assert_eq!(work.raw, Some(event));
    assert!(work.calls.is_empty());
}

#[test]
fn a_client_event_reaches_the_typed_handler_only() {
    let mut cache = Cache::new();
    let stage = ShardStageUpdateEvent {
        new: ConnectionStage::Connected,
        old: ConnectionStage::Handshake,
        shard_id: ShardId(0),
    };
    let work = dispatch(DispatchEvent::Client(ClientEvent::ShardStageUpdate(stage)), &mut cache, BOTH);
    assert_eq!(work.raw, None);
    assert_eq!(work.calls, vec![HandlerCall::ShardStageUpdate { event: stage }]);

    let work = dispatch(DispatchEvent::Client(ClientEvent::ShardStageUpdate(stage)), &mut cache, RAW);
    assert_eq!(work.raw, None);
    assert!(work.calls.is_empty());
}

#[test]
fn message_create_goes_to_handler_raw_handler_and_router() {
    let settings = Settings { max_messages: 10, time_to_live: 3600, cache_guilds: true };
    let mut cache = Cache::new_with_settings(settings);
    let posted = message(11, 4, "hi");
    let event = Event::MessageCreate(MessageCreateEvent { message: posted.clone() });
    let all = Handlers { framework: true, event_handler: true, raw_event_handler: true };

    let work = dispatch(DispatchEvent::Model(event.clone()), &mut cache, all);

    assert_eq!(work.raw, Some(event));
    assert_eq!(work.calls, vec![HandlerCall::Message { new_message: posted.clone() }]);
    assert_eq!(work.framework, Some(posted.clone()));
    assert_eq!(cache.message(ChannelId(4), MessageId(11)), Some(posted));
}

#[test]
fn message_create_without_a_router_schedules_no_routing() {
    let mut cache = Cache::new();
    let posted = message(11, 4, "hi");
    let event = Event::MessageCreate(MessageCreateEvent { message: posted.clone() });
    let work = dispatch(DispatchEvent::Model(event), &mut cache, TYPED);
    assert_eq!(work.calls, vec![HandlerCall::Message { new_message: posted }]);
    assert_eq!(work.framework, None);
}

#[test]
fn message_create_with_a_router_alone_schedules_routing_only() {
    let mut cache = Cache::new();
    let posted = message(11, 4, "hi");
    let event = Event::MessageCreate(MessageCreateEvent { message: posted.clone() });
    let router = Handlers { framework: true, event_handler: false, raw_event_handler: false };
    let work = dispatch(DispatchEvent::Model(event), &mut cache, router);
    assert_eq!(work.raw, None);
    assert!(work.calls.is_empty());
    assert_eq!(work.framework, Some(posted));
}

#[test]
fn dispatch_message_makes_the_message_call() {
    let posted = message(11, 4, "hi");
    assert_eq!(dispatch_message(posted.clone()), HandlerCall::Message { new_message: posted });
}

#[test]
fn handle_event_leaves_message_create_alone() {
    let settings = Settings { max_messages: 10, time_to_live: 3600, cache_guilds: true };
    let mut cache = Cache::new_with_settings(settings);
    let event = Event::MessageCreate(MessageCreateEvent { message: message(11, 4, "hi") });
    let calls = handle_event(&mut cache, DispatchEvent::Model(event));
    assert!(calls.is_empty());
    assert_eq!(cache.message(ChannelId(4), MessageId(11)), None);
}

#[test]
fn an_unknown_event_is_taken_without_a_call() {
    let mut cache = Cache::new();
    let work = dispatch(DispatchEvent::Model(Event::Unknown), &mut cache, BOTH);
    assert_eq!(work.raw, Some(Event::Unknown));
    assert!(work.calls.is_empty());
    assert_eq!(work.framework, None);
}

#[test]
fn an_event_without_cached_state_gives_its_one_call() {
    let mut cache = Cache::new();
    let typing = TypingStartEvent {
        guild_id: None,
        channel_id: ChannelId(4),
        user_id: UserId(3),
        timestamp: 1,
    };
    let work = dispatch(DispatchEvent::Model(Event::TypingStart(typing)), &mut cache, TYPED);
    assert_eq!(work.calls, vec![HandlerCall::TypingStart { event: typing }]);
}

#[test]
fn a_category_and_a_channel_are_told_apart() {
    let mut cache = Cache::new();
    let category = text_channel(20, "cat", ChannelType::Category);
    let channel = text_channel(21, "general", ChannelType::Text);

    let event = Event::ChannelCreate(ChannelCreateEvent { channel: Channel::Guild(category.clone()) });
    let work = dispatch(DispatchEvent::Model(event), &mut cache, TYPED);
    assert_eq!(work.calls, vec![HandlerCall::CategoryCreate { category: category.clone() }]);

    let event = Event::ChannelCreate(ChannelCreateEvent { channel: Channel::Guild(channel.clone()) });
    let work = dispatch(DispatchEvent::Model(event), &mut cache, TYPED);
    assert_eq!(work.calls, vec![HandlerCall::ChannelCreate { channel: channel.clone() }]);
    assert_eq!(cache.channel(ChannelId(21)), Some(channel.clone()));

    let event = Event::ChannelDelete(ChannelDeleteEvent { channel: Channel::Guild(category.clone()) });
    let work = dispatch(DispatchEvent::Model(event), &mut cache, TYPED);
    assert_eq!(work.calls, vec![HandlerCall::CategoryDelete { category }]);
    assert_eq!(cache.channel(ChannelId(20)), None);
}

#[test]
fn a_private_channel_gives_no_call_and_is_not_cached() {
    let mut cache = Cache::new();
    let private = Channel::Private(PrivateChannel { id: ChannelId(30), recipient: user(3, "ann") });
    let event = Event::ChannelCreate(ChannelCreateEvent { channel: private.clone() });
    let work = dispatch(DispatchEvent::Model(event), &mut cache, TYPED);
    assert!(work.calls.is_empty());
    assert_eq!(cache.channel(ChannelId(30)), None);

    let event = Event::ChannelDelete(ChannelDeleteEvent { channel: private });
    let work = dispatch(DispatchEvent::Model(event), &mut cache, TYPED);
    assert!(work.calls.is_empty());
}

#[test]
fn channel_delete_hands_over_the_cached_messages() {
    let settings = Settings { max_messages: 10, time_to_live: 3600, cache_guilds: true };
    let mut cache = Cache::new_with_settings(settings);
    let channel = text_channel(4, "general", ChannelType::Text);
    ChannelCreateEvent { channel: Channel::Guild(channel.clone()) }.update(&mut cache);
    MessageCreateEvent { message: message(11, 4, "one") }.update(&mut cache);
    MessageCreateEvent { message: message(12, 4, "two") }.update(&mut cache);

    let event = Event::ChannelDelete(ChannelDeleteEvent { channel: Channel::Guild(channel.clone()) });
    let work = dispatch(DispatchEvent::Model(event), &mut cache, TYPED);

    assert_eq!(
        work.calls,
        vec![HandlerCall::ChannelDelete {
            channel,
            messages: Some(vec![message(11, 4, "one"), message(12, 4, "two")]),
        }]
    );
    assert_eq!(cache.channel(ChannelId(4)), None);
    assert_eq!(cache.message_count(ChannelId(4)), 0);
}

#[test]
fn channel_update_hands_over_the_channel_as_it_was() {
    let mut cache = Cache::new();
    let before = text_channel(4, "general", ChannelType::Text);
    let after = text_channel(4, "lobby", ChannelType::Text);
    ChannelCreateEvent { channel: Channel::Guild(before.clone()) }.update(&mut cache);

    let event = Event::ChannelUpdate(ChannelUpdateEvent { channel: Channel::Guild(after.clone()) });
    let work = dispatch(DispatchEvent::Model(event), &mut cache, TYPED);

    assert_eq!(
        work.calls,
        vec![HandlerCall::ChannelUpdate {
            old: Some(Channel::Guild(before)),
            new: Channel::Guild(after.clone()),
        }]
    );
    assert_eq!(cache.channel(ChannelId(4)), Some(after));
}

#[test]
fn member_update_hands_over_the_member_before_and_after() {
    let mut cache = Cache::new();
    let before = Member {
        guild_id: GuildId(1),
        user: user(3, "ann"),
        nick: None,
        deaf: false,
        mute: false,
        pending: true,
    };
    GuildMemberAddEvent { member: before.clone() }.update(&mut cache);
    let update = GuildMemberUpdateEvent {
        guild_id: GuildId(1),
        user: user(3, "ann"),
        nick: Some("annie".to_string()),
        deaf: false,
        mute: true,
        pending: false,
    };
    let after = Member {
        guild_id: GuildId(1),
        user: user(3, "ann"),
        nick: Some("annie".to_string()),
        deaf: false,
        mute: true,
        pending: false,
    };

    let event = Event::GuildMemberUpdate(update.clone());
    let work = dispatch(DispatchEvent::Model(event), &mut cache, TYPED);

    assert_eq!(
        work.calls,
        vec![HandlerCall::GuildMemberUpdate {
            old: Some(before),
            new: Some(after.clone()),
            event: update,
        }]
    );
    assert_eq!(cache.member(GuildId(1), UserId(3)), Some(after));
}

#[test]
fn guild_update_changes_the_attributes_it_carries() {
    let mut cache = Cache::new();
    GuildCreateEvent { guild: guild(1, "old name") }.update(&mut cache);
    let partial = PartialGuild { id: GuildId(1), name: "new name".to_string(), owner_id: UserId(8) };

    let event = Event::GuildUpdate(GuildUpdateEvent { guild: partial.clone() });
    let work = dispatch(DispatchEvent::Model(event), &mut cache, TYPED);

    assert_eq!(
        work.calls,
        vec![HandlerCall::GuildUpdate { old: Some(guild(1, "old name")), new: partial }]
    );
    assert_eq!(
        cache.guild(GuildId(1)),
        Some(Guild {
            id: GuildId(1),
            name: "new name".to_string(),
            owner_id: UserId(8),
            member_count: 5,
        })
    );
}

#[test]
fn guild_update_for_a_guild_that_is_not_cached_changes_nothing() {
    let mut cache = Cache::new();
    let partial = PartialGuild { id: GuildId(1), name: "new name".to_string(), owner_id: UserId(8) };
    let event = Event::GuildUpdate(GuildUpdateEvent { guild: partial.clone() });
    let work = dispatch(DispatchEvent::Model(event), &mut cache, TYPED);
    assert_eq!(work.calls, vec![HandlerCall::GuildUpdate { old: None, new: partial }]);
    assert_eq!(cache.guild(GuildId(1)), None);
}

#[test]
fn message_update_hands_over_the_message_before_and_after() {
    let settings = Settings { max_messages: 10, time_to_live: 3600, cache_guilds: true };
    let mut cache = Cache::new_with_settings(settings);
    MessageCreateEvent { message: message(11, 4, "one") }.update(&mut cache);
    let update = MessageUpdateEvent {
        id: MessageId(11),
        channel_id: ChannelId(4),
        guild_id: Some(GuildId(1)),
        content: Some("edited".to_string()),
    };

    let event = Event::MessageUpdate(update.clone());
    let work = dispatch(DispatchEvent::Model(event), &mut cache, TYPED);

    assert_eq!(
        work.calls,
        vec![HandlerCall::MessageUpdate {
            old: Some(message(11, 4, "one")),
            new: Some(message(11, 4, "edited")),
            event: update,
        }]
    );
}

#[test]
fn user_and_voice_updates_hand_over_what_was_cached() {
    let mut cache = Cache::new();
    let first = CurrentUser { id: UserId(100), name: "bot".to_string(), verified: false };
    let second = CurrentUser { id: UserId(100), name: "bot2".to_string(), verified: true };
    let work = dispatch(
        DispatchEvent::Model(Event::UserUpdate(UserUpdateEvent { current_user: first.clone() })),
        &mut cache,
        TYPED,
    );
    assert_eq!(work.calls, vec![HandlerCall::UserUpdate { old: None, new: first.clone() }]);
    let work = dispatch(
        DispatchEvent::Model(Event::UserUpdate(UserUpdateEvent { current_user: second.clone() })),
        &mut cache,
        TYPED,
    );
    assert_eq!(work.calls, vec![HandlerCall::UserUpdate { old: Some(first), new: second.clone() }]);
    assert_eq!(cache.current_user(), Some(second));

    let joined = VoiceState {
        user_id: UserId(3),
        guild_id: Some(GuildId(1)),
        channel_id: Some(ChannelId(40)),
        deaf: false,
        mute: false,
        self_deaf: false,
        self_mute: false,
    };
    let left = VoiceState { channel_id: None, ..joined };
    let work = dispatch(
        DispatchEvent::Model(Event::VoiceStateUpdate(VoiceStateUpdateEvent { voice_state: joined })),
        &mut cache,
        TYPED,
    );
    assert_eq!(work.calls, vec![HandlerCall::VoiceStateUpdate { old: None, new: joined }]);
    assert_eq!(cache.voice_state(UserId(3)), Some(joined));
    let work = dispatch(
        DispatchEvent::Model(Event::VoiceStateUpdate(VoiceStateUpdateEvent { voice_state: left })),
        &mut cache,
        TYPED,
    );
    assert_eq!(work.calls, vec![HandlerCall::VoiceStateUpdate { old: Some(joined), new: left }]);
    assert_eq!(cache.voice_state(UserId(3)), None);
}

#[test]
fn cache_ready_fires_when_the_last_unavailable_guild_arrives() {
    let mut cache = Cache::new();
    dispatch(DispatchEvent::Model(Event::Ready(ready(vec![1, 2], None))), &mut cache, TYPED);
    assert!(cache.is_unavailable(GuildId(1)));
    assert!(cache.is_unavailable(GuildId(2)));

    let event = Event::GuildCreate(GuildCreateEvent { guild: guild(1, "one") });
    let work = dispatch(DispatchEvent::Model(event), &mut cache, TYPED);
    assert_eq!(
        work.calls,
        vec![HandlerCall::GuildCreate { guild: guild(1, "one"), is_new: Some(true) }]
    );

    let event = Event::GuildCreate(GuildCreateEvent { guild: guild(2, "two") });
    let work = dispatch(DispatchEvent::Model(event), &mut cache, TYPED);
    assert_eq!(work.calls.len(), 2);
    match &work.calls[0] {
        HandlerCall::CacheReady { guilds } => {
            let mut ids: Vec<u64> = guilds.iter().map(|g| g.0).collect();
            ids.sort();
            assert_eq!(ids, vec![1, 2]);
        },
        other => panic!("expected the cache ready call, got {other:?}"),
    }
    assert_eq!(work.calls[1], HandlerCall::GuildCreate { guild: guild(2, "two"), is_new: Some(true) });
    assert!(cache.all_guilds_available());

    let event = Event::GuildCreate(GuildCreateEvent { guild: guild(3, "three") });
    let work = dispatch(DispatchEvent::Model(event), &mut cache, TYPED);
    assert_eq!(
        work.calls,
        vec![HandlerCall::GuildCreate { guild: guild(3, "three"), is_new: Some(false) }]
    );
}

#[test]
fn guild_delete_hands_over_the_guild_and_marks_an_outage() {
    let mut cache = Cache::new();
    GuildCreateEvent { guild: guild(1, "one") }.update(&mut cache);
    GuildRoleCreateEvent { role: role("Old", 1) }.update(&mut cache);
    let gone = UnavailableGuild { id: GuildId(1), unavailable: true };
    let event = Event::GuildDelete(GuildDeleteEvent { guild: gone });
    let work = dispatch(DispatchEvent::Model(event), &mut cache, TYPED);
    assert_eq!(
        work.calls,
        vec![HandlerCall::GuildDelete { incomplete: gone, full: Some(guild(1, "one")) }]
    );
    assert_eq!(cache.guild(GuildId(1)), None);
    assert!(cache.is_unavailable(GuildId(1)));
    assert_eq!(cache.role(GuildId(1), RoleId(7)), None);
}

#[test]
fn shards_ready_fires_once_when_every_shard_is_ready() {
    let mut cache = Cache::new();
    let work = dispatch(
        DispatchEvent::Model(Event::Ready(ready(vec![], Some((0, 2))))),
        &mut cache,
        TYPED,
    );
    assert_eq!(work.calls, vec![HandlerCall::Ready { data_about_bot: ready(vec![], Some((0, 2))).ready }]);
    assert_eq!(cache.shard_total(), 2);
    assert!(cache.is_shard_connected(ShardId(0)));
    assert!(!cache.is_shard_connected(ShardId(1)));

    let work = dispatch(
        DispatchEvent::Model(Event::Ready(ready(vec![], Some((1, 2))))),
        &mut cache,
        TYPED,
    );
    assert_eq!(
        work.calls,
        vec![
            HandlerCall::ShardsReady { total_shards: 2 },
            HandlerCall::Ready { data_about_bot: ready(vec![], Some((1, 2))).ready },
        ]
    );

    let work = dispatch(
        DispatchEvent::Model(Event::Ready(ready(vec![], Some((1, 2))))),
        &mut cache,
        TYPED,
    );
    assert_eq!(work.calls, vec![HandlerCall::Ready { data_about_bot: ready(vec![], Some((1, 2))).ready }]);
    assert_eq!(cache.take_shards_ready(), None);
}

#[test]
fn shards_ready_waits_for_a_handler() {
    let mut cache = Cache::new();
    dispatch(DispatchEvent::Model(Event::Ready(ready(vec![], Some((0, 1))))), &mut cache, RAW);
    let work = dispatch(
        DispatchEvent::Model(Event::Ready(ready(vec![], Some((0, 1))))),
        &mut cache,
        TYPED,
    );
    assert_eq!(work.calls[0], HandlerCall::ShardsReady { total_shards: 1 });
}

#[test]
fn the_next_event_is_dispatched_whatever_became_of_the_calls_before() {
    let mut cache = Cache::new();
    let first = dispatch(
        DispatchEvent::Model(Event::GuildRoleCreate(GuildRoleCreateEvent { role: role("Old", 1) })),
        &mut cache,
        BOTH,
    );
    assert_eq!(first.calls.len(), 1);
    drop(first);

    let second = dispatch(
        DispatchEvent::Model(Event::GuildRoleUpdate(GuildRoleUpdateEvent { role: role("New", 2) })),
        &mut cache,
        BOTH,
    );
    assert_eq!(
        second.calls,
        vec![HandlerCall::GuildRoleUpdate { old: Some(role("Old", 1)), new: role("New", 2) }]
    );
    assert_eq!(cache.role(GuildId(1), RoleId(7)), Some(role("New", 2)));
}

#[test]
fn update_cache_returns_what_the_event_replaced() {
    let mut cache = Cache::new();
    let first = update_cache(&mut cache, &GuildRoleCreateEvent { role: role("Old", 1) });
    assert_eq!(first, None);
    let second = update_cache(&mut cache, &GuildRoleUpdateEvent { role: role("New", 2) });
    assert_eq!(second, Some(role("Old", 1)));
}

#[test]
fn dispatch_event_update_cache_follows_the_event() {
    let mut cache = Cache::new();
    let event = DispatchEvent::Model(Event::GuildRoleCreate(GuildRoleCreateEvent { role: role("Old", 1) }));
    event.update_cache(&mut cache);
    assert_eq!(cache.role(GuildId(1), RoleId(7)), Some(role("Old", 1)));

    let stage = ShardStageUpdateEvent {
        new: ConnectionStage::Connected,
        old: ConnectionStage::Handshake,
        shard_id: ShardId(0),
    };
    DispatchEvent::Client(ClientEvent::ShardStageUpdate(stage)).update_cache(&mut cache);
    assert_eq!(cache.role(GuildId(1), RoleId(7)), Some(role("Old", 1)));
}
