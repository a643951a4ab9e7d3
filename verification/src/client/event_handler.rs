//! The calls that the dispatcher asks for: one kind for each method of an event
//! handler, with the arguments the method takes.

use vstd::prelude::*;
use crate::client::bridge::gateway::event::ShardStageUpdateEvent;
use crate::model::application::interaction::Interaction;
use crate::model::channel::{Channel, GuildChannel, Message, Reaction, StageInstance, ThreadMember};
use crate::model::event::{
    ChannelPinsUpdateEvent,
    CommandPermissions,
    GuildMemberUpdateEvent,
    GuildMembersChunkEvent,
    GuildScheduledEventUserAddEvent,
    GuildScheduledEventUserRemoveEvent,
    InviteCreateEvent,
    InviteDeleteEvent,
    MessageUpdateEvent,
    ResumedEvent,
    ThreadListSyncEvent,
    ThreadMembersUpdateEvent,
    TypingStartEvent,
    VoiceServerUpdateEvent,
};
use crate::model::gateway::Ready;
use crate::model::guild::automod::{ActionExecution, Rule};
use crate::model::guild::scheduled_event::ScheduledEvent;
use crate::model::guild::{
    Emoji,
    Guild,
    Integration,
    Member,
    PartialGuild,
    Role,
    Sticker,
    UnavailableGuild,
};
use crate::model::id::{ApplicationId, ChannelId, GuildId, IntegrationId, MessageId, RoleId};
use crate::model::user::{CurrentUser, Presence, User};
use crate::model::voice::VoiceState;

verus! {

/// One call of an event handler: which method, and with what.
#[derive(Debug, PartialEq, Eq)]
pub enum HandlerCall {
    /// The permissions of an application command changed.
    ApplicationCommandPermissionsUpdate { permission: CommandPermissions },
    /// An auto moderation rule was created.
    AutoModerationRuleCreate { rule: Rule },
    /// An auto moderation rule was changed.
    AutoModerationRuleUpdate { rule: Rule },
    /// An auto moderation rule was deleted.
    AutoModerationRuleDelete { rule: Rule },
    /// An auto moderation rule was set off and an action ran.
    AutoModerationActionExecution { execution: ActionExecution },
    /// The last guild that was unavailable has arrived; `guilds` are the guilds the cache
    /// holds, each once, in no particular order.
    CacheReady { guilds: Vec<GuildId> },
    /// A category was created.
    CategoryCreate { category: GuildChannel },
    /// A category was deleted.
    CategoryDelete { category: GuildChannel },
    /// A channel of a guild was created.
    ChannelCreate { channel: GuildChannel },
    /// A channel of a guild was deleted; `messages` are those the cache held for it.
    ChannelDelete { channel: GuildChannel, messages: Option<Vec<Message>> },
    /// A message was pinned or unpinned.
    ChannelPinsUpdate { pin: ChannelPinsUpdateEvent },
    /// A channel was changed; `old` is the channel as the cache held it.
    ChannelUpdate { old: Option<Channel>, new: Channel },
    /// A user was banned from a guild.
    GuildBanAddition { guild_id: GuildId, banned_user: User },
    /// A user's ban was lifted.
    GuildBanRemoval { guild_id: GuildId, unbanned_user: User },
    /// A guild arrived; `is_new` tells whether the cache had it as unavailable.
    GuildCreate { guild: Guild, is_new: Option<bool> },
    /// A guild dropped out; `full` is the guild as the cache held it.
    GuildDelete { incomplete: UnavailableGuild, full: Option<Guild> },
    /// The emojis of a guild changed.
    GuildEmojisUpdate { guild_id: GuildId, current_state: Vec<Emoji> },
    /// The integrations of a guild changed.
    GuildIntegrationsUpdate { guild_id: GuildId },
    /// A user joined a guild.
    GuildMemberAddition { new_member: Member },
    /// A user left a guild; `member` is the member as the cache held it.
    GuildMemberRemoval { guild_id: GuildId, user: User, member: Option<Member> },
    /// A member changed; `old` and `new` are the member as the cache held and holds it.
    GuildMemberUpdate { old: Option<Member>, new: Option<Member>, event: GuildMemberUpdateEvent },
    /// A part of a guild's member list arrived.
    GuildMembersChunk { chunk: GuildMembersChunkEvent },
    /// A role was created.
    GuildRoleCreate { new: Role },
    /// A role was deleted; `role` is the role as the cache held it.
    GuildRoleDelete { guild_id: GuildId, role_id: RoleId, role: Option<Role> },
    /// A role was changed; `old` is the role as the cache held it.
    GuildRoleUpdate { old: Option<Role>, new: Role },
    /// The stickers of a guild changed.
    GuildStickersUpdate { guild_id: GuildId, current_state: Vec<Sticker> },
    /// A guild's attributes changed; `old` is the guild as the cache held it.
    GuildUpdate { old: Option<Guild>, new: PartialGuild },
    /// An invite was created.
    InviteCreate { data: InviteCreateEvent },
    /// An invite was deleted.
    InviteDelete { data: InviteDeleteEvent },
    /// A message was posted.
    Message { new_message: Message },
    /// A message was deleted.
    MessageDelete {
        channel_id: ChannelId,
        deleted_message_id: MessageId,
        guild_id: Option<GuildId>,
    },
    /// Several messages were deleted at once.
    MessageDeleteBulk {
        channel_id: ChannelId,
        deleted_message_ids: Vec<MessageId>,
        guild_id: Option<GuildId>,
    },
    /// A message was edited; `old` and `new` are the message as the cache held and holds it.
    MessageUpdate { old: Option<Message>, new: Option<Message>, event: MessageUpdateEvent },
    /// The presences were replaced.
    PresenceReplace { presences: Vec<Presence> },
    /// A user's presence changed.
    PresenceUpdate { new_data: Presence },
    /// A user reacted to a message.
    ReactionAdd { add_reaction: Reaction },
    /// A user took a reaction back.
    ReactionRemove { removed_reaction: Reaction },
    /// All reactions to a message were removed.
    ReactionRemoveAll { channel_id: ChannelId, removed_from_message_id: MessageId },
    /// A shard is ready.
    Ready { data_about_bot: Ready },
    /// A shard has resumed its session.
    Resume { event: ResumedEvent },
    /// A shard's connection went from one stage to another.
    ShardStageUpdate { event: ShardStageUpdateEvent },
    /// Every shard is ready.
    ShardsReady { total_shards: u32 },
    /// A user began to type.
    TypingStart { event: TypingStartEvent },
    /// The connection's own user changed; `old` is the user as the cache held it.
    UserUpdate { old: Option<CurrentUser>, new: CurrentUser },
    /// The voice server of a guild changed.
    VoiceServerUpdate { event: VoiceServerUpdateEvent },
    /// A user's voice connection changed; `old` is the connection as the cache held it.
    VoiceStateUpdate { old: Option<VoiceState>, new: VoiceState },
    /// A webhook of a channel changed.
    WebhookUpdate { guild_id: GuildId, belongs_to_channel_id: ChannelId },
    /// A user used a command, a component or a modal.
    InteractionCreate { interaction: Interaction },
    /// An integration was added.
    IntegrationCreate { integration: Integration },
    /// An integration changed.
    IntegrationUpdate { integration: Integration },
    /// An integration was removed.
    IntegrationDelete {
        integration_id: IntegrationId,
        guild_id: GuildId,
        application_id: Option<ApplicationId>,
    },
    /// A stage went live.
    StageInstanceCreate { stage_instance: StageInstance },
    /// A live stage changed.
    StageInstanceUpdate { stage_instance: StageInstance },
    /// A live stage ended.
    StageInstanceDelete { stage_instance: StageInstance },
    /// A thread was created.
    ThreadCreate { thread: GuildChannel },
    /// A thread was changed.
    ThreadUpdate { thread: GuildChannel },
    /// A thread was deleted.
    ThreadDelete { thread: GuildChannel },
    /// The active threads of a channel were listed.
    ThreadListSync { thread_list_sync: ThreadListSyncEvent },
    /// The user's own membership of a thread changed.
    ThreadMemberUpdate { thread_member: ThreadMember },
    /// Users were added to or removed from a thread.
    ThreadMembersUpdate { thread_members_update: ThreadMembersUpdateEvent },
    /// An event was scheduled.
    GuildScheduledEventCreate { event: ScheduledEvent },
    /// A scheduled event was changed.
    GuildScheduledEventUpdate { event: ScheduledEvent },
    /// A scheduled event was deleted.
    GuildScheduledEventDelete { event: ScheduledEvent },
    /// A user became interested in a scheduled event.
    GuildScheduledEventUserAdd { subscribed: GuildScheduledEventUserAddEvent },
    /// A user lost interest in a scheduled event.
    GuildScheduledEventUserRemove { unsubscribed: GuildScheduledEventUserRemoveEvent },
}

} // verus!
