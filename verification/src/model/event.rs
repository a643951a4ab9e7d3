//! The events a shard receives, one type per kind, and their union.

use vstd::prelude::*;
use crate::model::application::interaction::Interaction;
use crate::model::channel::{Channel, GuildChannel, Message, Reaction, StageInstance, ThreadMember};
use crate::model::gateway::Ready;
use crate::model::guild::automod::{ActionExecution, Rule};
use crate::model::guild::scheduled_event::ScheduledEvent;
use crate::model::guild::{
    Emoji,
    Guild,
    Integration,
    Member,
    PartialGuild,
    Role,
    Sticker,
    UnavailableGuild,
};
use crate::model::id::{
    ApplicationId,
    ChannelId,
    CommandId,
    GuildId,
    IntegrationId,
    MessageId,
    RoleId,
    ScheduledEventId,
    UserId,
};
use crate::model::timestamp::Timestamp;
use crate::model::user::{CurrentUser, Presence, User};
use crate::model::voice::VoiceState;

verus! {

/// Which command's permissions changed, and where.
#[derive(Clone, Copy, Debug, PartialEq, Eq)]
pub struct CommandPermissions {
    pub id: CommandId,
    pub application_id: ApplicationId,
    pub guild_id: GuildId,
}

/// The permissions of an application command changed.
#[derive(Clone, Copy, Debug, PartialEq, Eq)]
pub struct ApplicationCommandPermissionsUpdateEvent {
    pub permission: CommandPermissions,
}

/// An auto moderation rule was created.
#[derive(Debug, PartialEq, Eq)]
pub struct AutoModerationRuleCreateEvent {
    pub rule: Rule,
}

impl AutoModerationRuleCreateEvent {
    /// Whether two events hold the same values, lists compared item by item.
    pub open spec fn same(&self, other: &AutoModerationRuleCreateEvent) -> bool {
        &&& self.rule.same(&other.rule)
    }
}

impl Clone for AutoModerationRuleCreateEvent {
    fn clone(&self) -> (r: Self)
        ensures
            self.same(&r),
    {
        AutoModerationRuleCreateEvent { rule: self.rule.clone() }
    }
}

/// An auto moderation rule was changed.
#[derive(Debug, PartialEq, Eq)]
pub struct AutoModerationRuleUpdateEvent {
    pub rule: Rule,
}

impl AutoModerationRuleUpdateEvent {
    /// Whether two events hold the same values, lists compared item by item.
    pub open spec fn same(&self, other: &AutoModerationRuleUpdateEvent) -> bool {
        &&& self.rule.same(&other.rule)
    }
}

impl Clone for AutoModerationRuleUpdateEvent {
    fn clone(&self) -> (r: Self)
        ensures
            self.same(&r),
    {
        AutoModerationRuleUpdateEvent { rule: self.rule.clone() }
    }
}

/// An auto moderation rule was deleted.
#[derive(Debug, PartialEq, Eq)]
pub struct AutoModerationRuleDeleteEvent {
    pub rule: Rule,
}

impl AutoModerationRuleDeleteEvent {
    /// Whether two events hold the same values, lists compared item by item.
    pub open spec fn same(&self, other: &AutoModerationRuleDeleteEvent) -> bool {
        &&& self.rule.same(&other.rule)
    }
}

impl Clone for AutoModerationRuleDeleteEvent {
    fn clone(&self) -> (r: Self)
        ensures
            self.same(&r),
    {
        AutoModerationRuleDeleteEvent { rule: self.rule.clone() }
    }
}

/// An auto moderation rule was set off and an action ran.
#[derive(Debug, PartialEq, Eq)]
pub struct AutoModerationActionExecutionEvent {
    pub execution: ActionExecution,
}

impl Clone for AutoModerationActionExecutionEvent {
    fn clone(&self) -> (r: Self)
        ensures
            r == *self,
    {
        AutoModerationActionExecutionEvent { execution: self.execution.clone() }
    }
}

/// A channel was created.
#[derive(Debug, PartialEq, Eq)]
pub struct ChannelCreateEvent {
    pub channel: Channel,
}

impl Clone for ChannelCreateEvent {
    fn clone(&self) -> (r: Self)
        ensures
            r == *self,
    {
        ChannelCreateEvent { channel: self.channel.clone() }
    }
}

/// A channel was deleted.
#[derive(Debug, PartialEq, Eq)]
pub struct ChannelDeleteEvent {
    pub channel: Channel,
}

impl Clone for ChannelDeleteEvent {
    fn clone(&self) -> (r: Self)
        ensures
            r == *self,
    {
        ChannelDeleteEvent { channel: self.channel.clone() }
    }
}

/// A message was pinned or unpinned.
#[derive(Debug, PartialEq, Eq)]
pub struct ChannelPinsUpdateEvent {
    pub guild_id: Option<GuildId>,
    pub channel_id: ChannelId,
    pub last_pin_timestamp: Option<Timestamp>,
}

impl Clone for ChannelPinsUpdateEvent {
    fn clone(&self) -> (r: Self)
        ensures
            r == *self,
    {
        ChannelPinsUpdateEvent {
            guild_id: self.guild_id,
            channel_id: self.channel_id,
            last_pin_timestamp: self.last_pin_timestamp.clone(),
        }
    }
}

/// A channel was changed.
#[derive(Debug, PartialEq, Eq)]
pub struct ChannelUpdateEvent {
    pub channel: Channel,
}

impl Clone for ChannelUpdateEvent {
    fn clone(&self) -> (r: Self)
        ensures
            r == *self,
    {
        ChannelUpdateEvent { channel: self.channel.clone() }
    }
}

/// A user was banned from a guild.
#[derive(Debug, PartialEq, Eq)]
pub struct GuildBanAddEvent {
    pub guild_id: GuildId,
    pub user: User,
}

impl Clone for GuildBanAddEvent {
    fn clone(&self) -> (r: Self)
        ensures
            r == *self,
    {
        GuildBanAddEvent { guild_id: self.guild_id, user: self.user.clone() }
    }
}

/// A user's ban was lifted.
#[derive(Debug, PartialEq, Eq)]
pub struct GuildBanRemoveEvent {
    pub guild_id: GuildId,
    pub user: User,
}

impl Clone for GuildBanRemoveEvent {
    fn clone(&self) -> (r: Self)
        ensures
            r == *self,
    {
        GuildBanRemoveEvent { guild_id: self.guild_id, user: self.user.clone() }
    }
}

/// A guild became available, or the user joined one.
#[derive(Debug, PartialEq, Eq)]
pub struct GuildCreateEvent {
    pub guild: Guild,
}

impl Clone for GuildCreateEvent {
    fn clone(&self) -> (r: Self)
        ensures
            r == *self,
    {
        GuildCreateEvent { guild: self.guild.clone() }
    }
}

/// A guild became unavailable, or the user left it.
#[derive(Clone, Copy, Debug, PartialEq, Eq)]
pub struct GuildDeleteEvent {
    pub guild: UnavailableGuild,
}

/// The emojis of a guild changed; the event carries all of them.
#[derive(Debug, PartialEq, Eq)]
pub struct GuildEmojisUpdateEvent {
    pub guild_id: GuildId,
    pub emojis: Vec<Emoji>,
}

impl GuildEmojisUpdateEvent {
    /// Whether two events hold the same values, lists compared item by item.
    pub open spec fn same(&self, other: &GuildEmojisUpdateEvent) -> bool {
        &&& self.guild_id == other.guild_id
        &&& self.emojis@ == other.emojis@
    }
}

impl Clone for GuildEmojisUpdateEvent {
    fn clone(&self) -> (r: Self)
        ensures
            self.same(&r),
    {
        GuildEmojisUpdateEvent { guild_id: self.guild_id, emojis: self.emojis.clone() }
    }
}

/// The integrations of a guild changed.
#[derive(Clone, Copy, Debug, PartialEq, Eq)]
pub struct GuildIntegrationsUpdateEvent {
    pub guild_id: GuildId,
}

/// A user joined a guild.
#[derive(Debug, PartialEq, Eq)]
pub struct GuildMemberAddEvent {
    pub member: Member,
}

impl Clone for GuildMemberAddEvent {
    fn clone(&self) -> (r: Self)
        ensures
            r == *self,
    {
        GuildMemberAddEvent { member: self.member.clone() }
    }
}

/// A user left a guild.
#[derive(Debug, PartialEq, Eq)]
pub struct GuildMemberRemoveEvent {
    pub guild_id: GuildId,
    pub user: User,
}

impl Clone for GuildMemberRemoveEvent {
    fn clone(&self) -> (r: Self)
        ensures
            r == *self,
    {
        GuildMemberRemoveEvent { guild_id: self.guild_id, user: self.user.clone() }
    }
}

/// A member of a guild changed.
#[derive(Debug, PartialEq, Eq)]
pub struct GuildMemberUpdateEvent {
    pub guild_id: GuildId,
    pub user: User,
    pub nick: Option<String>,
    pub deaf: bool,
    pub mute: bool,
    pub pending: bool,
}

impl Clone for GuildMemberUpdateEvent {
    fn clone(&self) -> (r: Self)
        ensures
            r == *self,
    {
        GuildMemberUpdateEvent {
            guild_id: self.guild_id,
            user: self.user.clone(),
            nick: self.nick.clone(),
            deaf: self.deaf,
            mute: self.mute,
            pending: self.pending,
        }
    }
}

/// A part of a guild's member list, sent on request.
#[derive(Debug, PartialEq, Eq)]
pub struct GuildMembersChunkEvent {
    pub guild_id: GuildId,
    pub members: Vec<Member>,
    pub chunk_index: u32,
    pub chunk_count: u32,
}

impl GuildMembersChunkEvent {
    /// Whether two events hold the same values, lists compared item by item.
    pub open spec fn same(&self, other: &GuildMembersChunkEvent) -> bool {
        &&& self.guild_id == other.guild_id
        &&& self.members@ == other.members@
        &&& self.chunk_index == other.chunk_index
        &&& self.chunk_count == other.chunk_count
    }
}

impl Clone for GuildMembersChunkEvent {
    fn clone(&self) -> (r: Self)
        ensures
            self.same(&r),
    {
        GuildMembersChunkEvent {
            guild_id: self.guild_id,
            members: self.members.clone(),
            chunk_index: self.chunk_index,
            chunk_count: self.chunk_count,
        }
    }
}

/// A role was created.
#[derive(Debug, PartialEq, Eq)]
pub struct GuildRoleCreateEvent {
    pub role: Role,
}

impl Clone for GuildRoleCreateEvent {
    fn clone(&self) -> (r: Self)
        ensures
            r == *self,
    {
        GuildRoleCreateEvent { role: self.role.clone() }
    }
}

/// A role was deleted.
#[derive(Clone, Copy, Debug, PartialEq, Eq)]
pub struct GuildRoleDeleteEvent {
    pub guild_id: GuildId,
    pub role_id: RoleId,
}

/// A role was changed.
#[derive(Debug, PartialEq, Eq)]
pub struct GuildRoleUpdateEvent {
    pub role: Role,
}

impl Clone for GuildRoleUpdateEvent {
    fn clone(&self) -> (r: Self)
        ensures
            r == *self,
    {
        GuildRoleUpdateEvent { role: self.role.clone() }
    }
}

/// The stickers of a guild changed; the event carries all of them.
#[derive(Debug, PartialEq, Eq)]
pub struct GuildStickersUpdateEvent {
    pub guild_id: GuildId,
    pub stickers: Vec<Sticker>,
}

impl GuildStickersUpdateEvent {
    /// Whether two events hold the same values, lists compared item by item.
    pub open spec fn same(&self, other: &GuildStickersUpdateEvent) -> bool {
        &&& self.guild_id == other.guild_id
        &&& self.stickers@ == other.stickers@
    }
}

impl Clone for GuildStickersUpdateEvent {
    fn clone(&self) -> (r: Self)
        ensures
            self.same(&r),
    {
        GuildStickersUpdateEvent { guild_id: self.guild_id, stickers: self.stickers.clone() }
    }
}

/// A guild's own attributes changed.
#[derive(Debug, PartialEq, Eq)]
pub struct GuildUpdateEvent {
    pub guild: PartialGuild,
}

impl Clone for GuildUpdateEvent {
    fn clone(&self) -> (r: Self)
        ensures
            r == *self,
    {
        GuildUpdateEvent { guild: self.guild.clone() }
    }
}

/// An invite to a channel was created.
#[derive(Debug, PartialEq, Eq)]
pub struct InviteCreateEvent {
    pub channel_id: ChannelId,
    pub guild_id: Option<GuildId>,
    pub code: String,
    pub inviter: Option<User>,
    pub max_age: u64,
    pub max_uses: u64,
    pub temporary: bool,
}

impl Clone for InviteCreateEvent {
    fn clone(&self) -> (r: Self)
        ensures
            r == *self,
    {
        InviteCreateEvent {
            channel_id: self.channel_id,
            guild_id: self.guild_id,
            code: self.code.clone(),
            inviter: self.inviter.clone(),
            max_age: self.max_age,
            max_uses: self.max_uses,
            temporary: self.temporary,
        }
    }
}

/// An invite to a channel was deleted.
#[derive(Debug, PartialEq, Eq)]
pub struct InviteDeleteEvent {
    pub channel_id: ChannelId,
    pub guild_id: Option<GuildId>,
    pub code: String,
}

impl Clone for InviteDeleteEvent {
    fn clone(&self) -> (r: Self)
        ensures
            r == *self,
    {
        InviteDeleteEvent {
            channel_id: self.channel_id,
            guild_id: self.guild_id,
            code: self.code.clone(),
        }
    }
}

/// A message was posted.
#[derive(Debug, PartialEq, Eq)]
pub struct MessageCreateEvent {
    pub message: Message,
}

impl Clone for MessageCreateEvent {
    fn clone(&self) -> (r: Self)
        ensures
            r == *self,
    {
        MessageCreateEvent { message: self.message.clone() }
    }
}

/// Several messages of one channel were deleted at once.
#[derive(Debug, PartialEq, Eq)]
pub struct MessageDeleteBulkEvent {
    pub guild_id: Option<GuildId>,
    pub channel_id: ChannelId,
    pub ids: Vec<MessageId>,
}

impl MessageDeleteBulkEvent {
    /// Whether two events hold the same values, lists compared item by item.
    pub open spec fn same(&self, other: &MessageDeleteBulkEvent) -> bool {
        &&& self.guild_id == other.guild_id
        &&& self.channel_id == other.channel_id
        &&& self.ids@ == other.ids@
    }
}

impl Clone for MessageDeleteBulkEvent {
    fn clone(&self) -> (r: Self)
        ensures
            self.same(&r),
    {
        MessageDeleteBulkEvent {
            guild_id: self.guild_id,
            channel_id: self.channel_id,
            ids: self.ids.clone(),
        }
    }
}

/// A message was deleted.
#[derive(Clone, Copy, Debug, PartialEq, Eq)]
pub struct MessageDeleteEvent {
    pub guild_id: Option<GuildId>,
    pub channel_id: ChannelId,
    pub message_id: MessageId,
}

/// A message was edited; the event carries what changed.
#[derive(Debug, PartialEq, Eq)]
pub struct MessageUpdateEvent {
    pub id: MessageId,
    pub channel_id: ChannelId,
    pub guild_id: Option<GuildId>,
    pub content: Option<String>,
}

impl Clone for MessageUpdateEvent {
    fn clone(&self) -> (r: Self)
        ensures
            r == *self,
    {
        MessageUpdateEvent {
            id: self.id,
            channel_id: self.channel_id,
            guild_id: self.guild_id,
            content: self.content.clone(),
        }
    }
}

/// The presences known so far are replaced by the given ones.
#[derive(Debug, PartialEq, Eq)]
pub struct PresencesReplaceEvent {
    pub presences: Vec<Presence>,
}

impl PresencesReplaceEvent {
    /// Whether two events hold the same values, lists compared item by item.
    pub open spec fn same(&self, other: &PresencesReplaceEvent) -> bool {
        &&& self.presences@ == other.presences@
    }
}

impl Clone for PresencesReplaceEvent {
    fn clone(&self) -> (r: Self)
        ensures
            self.same(&r),
    {
        PresencesReplaceEvent { presences: self.presences.clone() }
    }
}

/// A user's presence changed.
#[derive(Clone, Copy, Debug, PartialEq, Eq)]
pub struct PresenceUpdateEvent {
    pub presence: Presence,
}

/// A user reacted to a message.
#[derive(Debug, PartialEq, Eq)]
pub struct ReactionAddEvent {
    pub reaction: Reaction,
}

impl Clone for ReactionAddEvent {
    fn clone(&self) -> (r: Self)
        ensures
            r == *self,
    {
        ReactionAddEvent { reaction: self.reaction.clone() }
    }
}

/// A user took a reaction back.
#[derive(Debug, PartialEq, Eq)]
pub struct ReactionRemoveEvent {
    pub reaction: Reaction,
}

impl Clone for ReactionRemoveEvent {
    fn clone(&self) -> (r: Self)
        ensures
            r == *self,
    {
        ReactionRemoveEvent { reaction: self.reaction.clone() }
    }
}

/// All reactions to a message were removed.
#[derive(Clone, Copy, Debug, PartialEq, Eq)]
pub struct ReactionRemoveAllEvent {
    pub guild_id: Option<GuildId>,
    pub channel_id: ChannelId,
    pub message_id: MessageId,
}

/// A shard has connected and identified.
#[derive(Debug, PartialEq, Eq)]
pub struct ReadyEvent {
    pub ready: Ready,
}

impl ReadyEvent {
    /// Whether two events hold the same values, lists compared item by item.
    pub open spec fn same(&self, other: &ReadyEvent) -> bool {
        &&& self.ready.same(&other.ready)
    }
}

impl Clone for ReadyEvent {
    fn clone(&self) -> (r: Self)
        ensures
            self.same(&r),
    {
        ReadyEvent { ready: self.ready.clone() }
    }
}

/// A shard has resumed its session.
#[derive(Clone, Copy, Debug, PartialEq, Eq)]
pub struct ResumedEvent {}

/// A user began to type.
#[derive(Clone, Copy, Debug, PartialEq, Eq)]
pub struct TypingStartEvent {
    pub guild_id: Option<GuildId>,
    pub channel_id: ChannelId,
    pub user_id: UserId,
    pub timestamp: u64,
}

/// The connection's own user changed.
#[derive(Debug, PartialEq, Eq)]
pub struct UserUpdateEvent {
    pub current_user: CurrentUser,
}

impl Clone for UserUpdateEvent {
    fn clone(&self) -> (r: Self)
        ensures
            r == *self,
    {
        UserUpdateEvent { current_user: self.current_user.clone() }
    }
}

/// The voice server of a guild changed.
#[derive(Debug, PartialEq, Eq)]
pub struct VoiceServerUpdateEvent {
    pub guild_id: Option<GuildId>,
    pub channel_id: Option<ChannelId>,
    pub endpoint: Option<String>,
    pub token: String,
}

impl Clone for VoiceServerUpdateEvent {
    fn clone(&self) -> (r: Self)
        ensures
            r == *self,
    {
        VoiceServerUpdateEvent {
            guild_id: self.guild_id,
            channel_id: self.channel_id,
            endpoint: self.endpoint.clone(),
            token: self.token.clone(),
        }
    }
}

/// A user's voice connection changed.
#[derive(Clone, Copy, Debug, PartialEq, Eq)]
pub struct VoiceStateUpdateEvent {
    pub voice_state: VoiceState,
}

/// A webhook of a channel changed.
#[derive(Clone, Copy, Debug, PartialEq, Eq)]
pub struct WebhookUpdateEvent {
    pub guild_id: GuildId,
    pub channel_id: ChannelId,
}

/// A user used a command, a component or a modal.
#[derive(Debug, PartialEq, Eq)]
pub struct InteractionCreateEvent {
    pub interaction: Interaction,
}

impl InteractionCreateEvent {
    /// Whether two events hold the same values, lists compared item by item.
    pub open spec fn same(&self, other: &InteractionCreateEvent) -> bool {
        &&& self.interaction.same(&other.interaction)
    }
}

impl Clone for InteractionCreateEvent {
    fn clone(&self) -> (r: Self)
        ensures
            self.same(&r),
    {
        InteractionCreateEvent { interaction: self.interaction.clone() }
    }
}

/// An integration was added to a guild.
#[derive(Debug, PartialEq, Eq)]
pub struct IntegrationCreateEvent {
    pub integration: Integration,
}

impl Clone for IntegrationCreateEvent {
    fn clone(&self) -> (r: Self)
        ensures
            r == *self,
    {
        IntegrationCreateEvent { integration: self.integration.clone() }
    }
}

/// An integration of a guild changed.
#[derive(Debug, PartialEq, Eq)]
pub struct IntegrationUpdateEvent {
    pub integration: Integration,
}

impl Clone for IntegrationUpdateEvent {
    fn clone(&self) -> (r: Self)
        ensures
            r == *self,
    {
        IntegrationUpdateEvent { integration: self.integration.clone() }
    }
}

/// An integration was removed from a guild.
#[derive(Clone, Copy, Debug, PartialEq, Eq)]
pub struct IntegrationDeleteEvent {
    pub id: IntegrationId,
    pub guild_id: GuildId,
    pub application_id: Option<ApplicationId>,
}

/// A stage went live.
#[derive(Debug, PartialEq, Eq)]
pub struct StageInstanceCreateEvent {
    pub stage_instance: StageInstance,
}

impl Clone for StageInstanceCreateEvent {
    fn clone(&self) -> (r: Self)
        ensures
            r == *self,
    {
        StageInstanceCreateEvent { stage_instance: self.stage_instance.clone() }
    }
}

/// A live stage changed.
#[derive(Debug, PartialEq, Eq)]
pub struct StageInstanceUpdateEvent {
    pub stage_instance: StageInstance,
}

impl Clone for StageInstanceUpdateEvent {
    fn clone(&self) -> (r: Self)
        ensures
            r == *self,
    {
        StageInstanceUpdateEvent { stage_instance: self.stage_instance.clone() }
    }
}

/// A live stage ended.
#[derive(Debug, PartialEq, Eq)]
pub struct StageInstanceDeleteEvent {
    pub stage_instance: StageInstance,
}

impl Clone for StageInstanceDeleteEvent {
    fn clone(&self) -> (r: Self)
        ensures
            r == *self,
    {
        StageInstanceDeleteEvent { stage_instance: self.stage_instance.clone() }
    }
}

/// A thread was created, or the user was added to one.
#[derive(Debug, PartialEq, Eq)]
pub struct ThreadCreateEvent {
    pub thread: GuildChannel,
}

impl Clone for ThreadCreateEvent {
    fn clone(&self) -> (r: Self)
        ensures
            r == *self,
    {
        ThreadCreateEvent { thread: self.thread.clone() }
    }
}

/// A thread was changed.
#[derive(Debug, PartialEq, Eq)]
pub struct ThreadUpdateEvent {
    pub thread: GuildChannel,
}

impl Clone for ThreadUpdateEvent {
    fn clone(&self) -> (r: Self)
        ensures
            r == *self,
    {
        ThreadUpdateEvent { thread: self.thread.clone() }
    }
}

/// A thread was deleted.
#[derive(Debug, PartialEq, Eq)]
pub struct ThreadDeleteEvent {
    pub thread: GuildChannel,
}

impl Clone for ThreadDeleteEvent {
    fn clone(&self) -> (r: Self)
        ensures
            r == *self,
    {
        ThreadDeleteEvent { thread: self.thread.clone() }
    }
}

/// The user gained access to a channel; the event lists its active threads.
#[derive(Debug, PartialEq, Eq)]
pub struct ThreadListSyncEvent {
    pub guild_id: GuildId,
    pub threads: Vec<GuildChannel>,
}

impl ThreadListSyncEvent {
    /// Whether two events hold the same values, lists compared item by item.
    pub open spec fn same(&self, other: &ThreadListSyncEvent) -> bool {
        &&& self.guild_id == other.guild_id
        &&& self.threads@ == other.threads@
    }
}

impl Clone for ThreadListSyncEvent {
    fn clone(&self) -> (r: Self)
        ensures
            self.same(&r),
    {
        ThreadListSyncEvent { guild_id: self.guild_id, threads: self.threads.clone() }
    }
}

/// The user's own membership of a thread changed.
#[derive(Clone, Copy, Debug, PartialEq, Eq)]
pub struct ThreadMemberUpdateEvent {
    pub member: ThreadMember,
}

/// Users were added to or removed from a thread.
#[derive(Debug, PartialEq, Eq)]
pub struct ThreadMembersUpdateEvent {
    pub id: ChannelId,
    pub guild_id: GuildId,
    pub member_count: u8,
    pub removed_member_ids: Vec<UserId>,
}

impl ThreadMembersUpdateEvent {
    /// Whether two events hold the same values, lists compared item by item.
    pub open spec fn same(&self, other: &ThreadMembersUpdateEvent) -> bool {
        &&& self.id == other.id
        &&& self.guild_id == other.guild_id
        &&& self.member_count == other.member_count
        &&& self.removed_member_ids@ == other.removed_member_ids@
    }
}

impl Clone for ThreadMembersUpdateEvent {
    fn clone(&self) -> (r: Self)
        ensures
            self.same(&r),
    {
        ThreadMembersUpdateEvent {
            id: self.id,
            guild_id: self.guild_id,
            member_count: self.member_count,
            removed_member_ids: self.removed_member_ids.clone(),
        }
    }
}

/// An event was scheduled.
#[derive(Debug, PartialEq, Eq)]
pub struct GuildScheduledEventCreateEvent {
    pub event: ScheduledEvent,
}

impl Clone for GuildScheduledEventCreateEvent {
    fn clone(&self) -> (r: Self)
        ensures
            r == *self,
    {
        GuildScheduledEventCreateEvent { event: self.event.clone() }
    }
}

/// A scheduled event was changed.
#[derive(Debug, PartialEq, Eq)]
pub struct GuildScheduledEventUpdateEvent {
    pub event: ScheduledEvent,
}

impl Clone for GuildScheduledEventUpdateEvent {
    fn clone(&self) -> (r: Self)
        ensures
            r == *self,
    {
        GuildScheduledEventUpdateEvent { event: self.event.clone() }
    }
}

/// A scheduled event was deleted.
#[derive(Debug, PartialEq, Eq)]
pub struct GuildScheduledEventDeleteEvent {
    pub event: ScheduledEvent,
}

impl Clone for GuildScheduledEventDeleteEvent {
    fn clone(&self) -> (r: Self)
        ensures
            r == *self,
    {
        GuildScheduledEventDeleteEvent { event: self.event.clone() }
    }
}

/// A user became interested in a scheduled event.
#[derive(Clone, Copy, Debug, PartialEq, Eq)]
pub struct GuildScheduledEventUserAddEvent {
    pub scheduled_event_id: ScheduledEventId,
    pub user_id: UserId,
    pub guild_id: GuildId,
}

/// A user lost interest in a scheduled event.
#[derive(Clone, Copy, Debug, PartialEq, Eq)]
pub struct GuildScheduledEventUserRemoveEvent {
    pub scheduled_event_id: ScheduledEventId,
    pub user_id: UserId,
    pub guild_id: GuildId,
}

/// One event of the gateway: every kind the platform documents, and one variant
/// for the kinds it does not.
#[derive(Debug, PartialEq, Eq)]
pub enum Event {
    ApplicationCommandPermissionsUpdate(ApplicationCommandPermissionsUpdateEvent),
    AutoModerationRuleCreate(AutoModerationRuleCreateEvent),
    AutoModerationRuleUpdate(AutoModerationRuleUpdateEvent),
    AutoModerationRuleDelete(AutoModerationRuleDeleteEvent),
    AutoModerationActionExecution(AutoModerationActionExecutionEvent),
    ChannelCreate(ChannelCreateEvent),
    ChannelDelete(ChannelDeleteEvent),
    ChannelPinsUpdate(ChannelPinsUpdateEvent),
    ChannelUpdate(ChannelUpdateEvent),
    GuildBanAdd(GuildBanAddEvent),
    GuildBanRemove(GuildBanRemoveEvent),
    GuildCreate(GuildCreateEvent),
    GuildDelete(GuildDeleteEvent),
    GuildEmojisUpdate(GuildEmojisUpdateEvent),
    GuildIntegrationsUpdate(GuildIntegrationsUpdateEvent),
    GuildMemberAdd(GuildMemberAddEvent),
    GuildMemberRemove(GuildMemberRemoveEvent),
    GuildMemberUpdate(GuildMemberUpdateEvent),
    GuildMembersChunk(GuildMembersChunkEvent),
    GuildRoleCreate(GuildRoleCreateEvent),
    GuildRoleDelete(GuildRoleDeleteEvent),
    GuildRoleUpdate(GuildRoleUpdateEvent),
    GuildStickersUpdate(GuildStickersUpdateEvent),
    GuildUpdate(GuildUpdateEvent),
    InviteCreate(InviteCreateEvent),
    InviteDelete(InviteDeleteEvent),
    MessageCreate(MessageCreateEvent),
    MessageDeleteBulk(MessageDeleteBulkEvent),
    MessageDelete(MessageDeleteEvent),
    MessageUpdate(MessageUpdateEvent),
    PresencesReplace(PresencesReplaceEvent),
    PresenceUpdate(PresenceUpdateEvent),
    ReactionAdd(ReactionAddEvent),
    ReactionRemove(ReactionRemoveEvent),
    ReactionRemoveAll(ReactionRemoveAllEvent),
    Ready(ReadyEvent),
    Resumed(ResumedEvent),
    TypingStart(TypingStartEvent),
    UserUpdate(UserUpdateEvent),
    VoiceServerUpdate(VoiceServerUpdateEvent),
    VoiceStateUpdate(VoiceStateUpdateEvent),
    WebhookUpdate(WebhookUpdateEvent),
    InteractionCreate(InteractionCreateEvent),
    IntegrationCreate(IntegrationCreateEvent),
    IntegrationUpdate(IntegrationUpdateEvent),
    IntegrationDelete(IntegrationDeleteEvent),
    StageInstanceCreate(StageInstanceCreateEvent),
    StageInstanceUpdate(StageInstanceUpdateEvent),
    StageInstanceDelete(StageInstanceDeleteEvent),
    ThreadCreate(ThreadCreateEvent),
    ThreadUpdate(ThreadUpdateEvent),
    ThreadDelete(ThreadDeleteEvent),
    ThreadListSync(ThreadListSyncEvent),
    ThreadMemberUpdate(ThreadMemberUpdateEvent),
    ThreadMembersUpdate(ThreadMembersUpdateEvent),
    GuildScheduledEventCreate(GuildScheduledEventCreateEvent),
    GuildScheduledEventUpdate(GuildScheduledEventUpdateEvent),
    GuildScheduledEventDelete(GuildScheduledEventDeleteEvent),
    GuildScheduledEventUserAdd(GuildScheduledEventUserAddEvent),
    GuildScheduledEventUserRemove(GuildScheduledEventUserRemoveEvent),
    /// An event whose kind this library does not know.
    Unknown,
}

impl Event {
    /// Whether two events are of one kind and hold the same values, lists compared
    /// item by item. Of events that carry no list this is equality.
    pub open spec fn same(&self, other: &Event) -> bool {
        match (*self, *other) {
            (Event::AutoModerationRuleCreate(a), Event::AutoModerationRuleCreate(b)) => a.same(&b),
            (Event::AutoModerationRuleUpdate(a), Event::AutoModerationRuleUpdate(b)) => a.same(&b),
            (Event::AutoModerationRuleDelete(a), Event::AutoModerationRuleDelete(b)) => a.same(&b),
            (Event::GuildEmojisUpdate(a), Event::GuildEmojisUpdate(b)) => a.same(&b),
            (Event::GuildMembersChunk(a), Event::GuildMembersChunk(b)) => a.same(&b),
            (Event::GuildStickersUpdate(a), Event::GuildStickersUpdate(b)) => a.same(&b),
            (Event::MessageDeleteBulk(a), Event::MessageDeleteBulk(b)) => a.same(&b),
            (Event::PresencesReplace(a), Event::PresencesReplace(b)) => a.same(&b),
            (Event::Ready(a), Event::Ready(b)) => a.same(&b),
            (Event::InteractionCreate(a), Event::InteractionCreate(b)) => a.same(&b),
            (Event::ThreadListSync(a), Event::ThreadListSync(b)) => a.same(&b),
            (Event::ThreadMembersUpdate(a), Event::ThreadMembersUpdate(b)) => a.same(&b),
            _ => *self == *other,
        }
    }

    /// An event is the same as itself.
    pub proof fn lemma_same_reflexive(&self)
        ensures
            self.same(self),
    {
    }
}

impl Clone for Event {
    fn clone(&self) -> (r: Self)
        ensures
            self.same(&r),
    {
        match self {
            Event::ApplicationCommandPermissionsUpdate(e) => {
                Event::ApplicationCommandPermissionsUpdate(*e)
            },
            Event::AutoModerationRuleCreate(e) => Event::AutoModerationRuleCreate(e.clone()),
            Event::AutoModerationRuleUpdate(e) => Event::AutoModerationRuleUpdate(e.clone()),
            Event::AutoModerationRuleDelete(e) => Event::AutoModerationRuleDelete(e.clone()),
            Event::AutoModerationActionExecution(e) => {
                Event::AutoModerationActionExecution(e.clone())
            },
            Event::ChannelCreate(e) => Event::ChannelCreate(e.clone()),
            Event::ChannelDelete(e) => Event::ChannelDelete(e.clone()),
            Event::ChannelPinsUpdate(e) => Event::ChannelPinsUpdate(e.clone()),
            Event::ChannelUpdate(e) => Event::ChannelUpdate(e.clone()),
            Event::GuildBanAdd(e) => Event::GuildBanAdd(e.clone()),
            Event::GuildBanRemove(e) => Event::GuildBanRemove(e.clone()),
            Event::GuildCreate(e) => Event::GuildCreate(e.clone()),
            Event::GuildDelete(e) => Event::GuildDelete(*e),
            Event::GuildEmojisUpdate(e) => Event::GuildEmojisUpdate(e.clone()),
            Event::GuildIntegrationsUpdate(e) => Event::GuildIntegrationsUpdate(*e),
            Event::GuildMemberAdd(e) => Event::GuildMemberAdd(e.clone()),
            Event::GuildMemberRemove(e) => Event::GuildMemberRemove(e.clone()),
            Event::GuildMemberUpdate(e) => Event::GuildMemberUpdate(e.clone()),
            Event::GuildMembersChunk(e) => Event::GuildMembersChunk(e.clone()),
            Event::GuildRoleCreate(e) => Event::GuildRoleCreate(e.clone()),
            Event::GuildRoleDelete(e) => Event::GuildRoleDelete(*e),
            Event::GuildRoleUpdate(e) => Event::GuildRoleUpdate(e.clone()),
            Event::GuildStickersUpdate(e) => Event::GuildStickersUpdate(e.clone()),
            Event::GuildUpdate(e) => Event::GuildUpdate(e.clone()),
            Event::InviteCreate(e) => Event::InviteCreate(e.clone()),
            Event::InviteDelete(e) => Event::InviteDelete(e.clone()),
            Event::MessageCreate(e) => Event::MessageCreate(e.clone()),
            Event::MessageDeleteBulk(e) => Event::MessageDeleteBulk(e.clone()),
            Event::MessageDelete(e) => Event::MessageDelete(*e),
            Event::MessageUpdate(e) => Event::MessageUpdate(e.clone()),
            Event::PresencesReplace(e) => Event::PresencesReplace(e.clone()),
            Event::PresenceUpdate(e) => Event::PresenceUpdate(*e),
            Event::ReactionAdd(e) => Event::ReactionAdd(e.clone()),
            Event::ReactionRemove(e) => Event::ReactionRemove(e.clone()),
            Event::ReactionRemoveAll(e) => Event::ReactionRemoveAll(*e),
            Event::Ready(e) => Event::Ready(e.clone()),
            Event::Resumed(e) => Event::Resumed(*e),
            Event::TypingStart(e) => Event::TypingStart(*e),
            Event::UserUpdate(e) => Event::UserUpdate(e.clone()),
            Event::VoiceServerUpdate(e) => Event::VoiceServerUpdate(e.clone()),
            Event::VoiceStateUpdate(e) => Event::VoiceStateUpdate(*e),
            Event::WebhookUpdate(e) => Event::WebhookUpdate(*e),
            Event::InteractionCreate(e) => Event::InteractionCreate(e.clone()),
            Event::IntegrationCreate(e) => Event::IntegrationCreate(e.clone()),
            Event::IntegrationUpdate(e) => Event::IntegrationUpdate(e.clone()),
            Event::IntegrationDelete(e) => Event::IntegrationDelete(*e),
            Event::StageInstanceCreate(e) => Event::StageInstanceCreate(e.clone()),
            Event::StageInstanceUpdate(e) => Event::StageInstanceUpdate(e.clone()),
            Event::StageInstanceDelete(e) => Event::StageInstanceDelete(e.clone()),
            Event::ThreadCreate(e) => Event::ThreadCreate(e.clone()),
            Event::ThreadUpdate(e) => Event::ThreadUpdate(e.clone()),
            Event::ThreadDelete(e) => Event::ThreadDelete(e.clone()),
            Event::ThreadListSync(e) => Event::ThreadListSync(e.clone()),
            Event::ThreadMemberUpdate(e) => Event::ThreadMemberUpdate(*e),
            Event::ThreadMembersUpdate(e) => Event::ThreadMembersUpdate(e.clone()),
            Event::GuildScheduledEventCreate(e) => Event::GuildScheduledEventCreate(e.clone()),
            Event::GuildScheduledEventUpdate(e) => Event::GuildScheduledEventUpdate(e.clone()),
            Event::GuildScheduledEventDelete(e) => Event::GuildScheduledEventDelete(e.clone()),
            Event::GuildScheduledEventUserAdd(e) => Event::GuildScheduledEventUserAdd(*e),
            Event::GuildScheduledEventUserRemove(e) => Event::GuildScheduledEventUserRemove(*e),
            Event::Unknown => Event::Unknown,
        }
    }
}

} // verus!
