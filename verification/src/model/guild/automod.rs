//! Auto moderation: rules that a guild sets on content, and what they do.

use vstd::prelude::*;
use crate::model::id::{ChannelId, GuildId, MessageId, RoleId, RuleId, UserId};

verus! {

/// A configured auto moderation rule.
#[derive(Debug, PartialEq, Eq)]
pub struct Rule {
    pub id: RuleId,
    /// The guild the rule belongs to.
    pub guild_id: GuildId,
    pub name: String,
    /// The user who created the rule.
    pub creator_id: UserId,
    /// On which events the rule is checked.
    pub event_type: EventType,
    /// What content sets the rule off.
    pub trigger: Trigger,
    /// What happens when the rule is set off.
    pub actions: Vec<Action>,
    pub enabled: bool,
    /// Roles the rule leaves alone; the platform takes up to 20.
    pub exempt_roles: Vec<RoleId>,
    /// Channels the rule leaves alone; the platform takes up to 50.
    pub exempt_channels: Vec<ChannelId>,
}

/// On which events a rule is checked.
#[derive(Clone, Copy, Debug, PartialEq, Eq, Structural, Hash)]
pub enum EventType {
    MessageSend,
    /// A number that this library has no name for.
    Unknown(u8),
}

impl From<u8> for EventType {
    fn from(value: u8) -> (r: Self) {
        match value {
            1 => EventType::MessageSend,
            _ => EventType::Unknown(value),
        }
    }
}

impl vstd::std_specs::convert::FromSpecImpl<u8> for EventType {
    open spec fn obeys_from_spec() -> bool {
        true
    }

    open spec fn from_spec(value: u8) -> Self {
        match value {
            1 => EventType::MessageSend,
            _ => EventType::Unknown(value),
        }
    }
}

impl From<EventType> for u8 {
    fn from(value: EventType) -> (r: Self) {
        match value {
            EventType::MessageSend => 1,
            EventType::Unknown(unknown) => unknown,
        }
    }
}

impl vstd::std_specs::convert::FromSpecImpl<EventType> for u8 {
    open spec fn obeys_from_spec() -> bool {
        true
    }

    open spec fn from_spec(value: EventType) -> Self {
        match value {
            EventType::MessageSend => 1,
            EventType::Unknown(unknown) => unknown,
        }
    }
}

impl Rule {
    /// Whether two rules hold the same values, lists compared item by item.
    pub open spec fn same(&self, other: &Rule) -> bool {
        &&& self.id == other.id
        &&& self.guild_id == other.guild_id
        &&& self.name == other.name
        &&& self.creator_id == other.creator_id
        &&& self.event_type == other.event_type
        &&& self.trigger.same(&other.trigger)
        &&& self.actions@ == other.actions@
        &&& self.enabled == other.enabled
        &&& self.exempt_roles@ == other.exempt_roles@
        &&& self.exempt_channels@ == other.exempt_channels@
    }
}

impl Clone for Rule {
    fn clone(&self) -> (r: Self)
        ensures
            self.same(&r),
    {
        Rule {
            id: self.id,
            guild_id: self.guild_id,
            name: self.name.clone(),
            creator_id: self.creator_id,
            event_type: self.event_type,
            trigger: self.trigger.clone(),
            actions: self.actions.clone(),
            enabled: self.enabled,
            exempt_roles: self.exempt_roles.clone(),
            exempt_channels: self.exempt_channels.clone(),
        }
    }
}

/// What content sets a rule off.
#[derive(Debug, PartialEq, Eq)]
pub enum Trigger {
    /// One of the given words occurs.
    Keyword(Vec<String>),
    HarmfulLink,
    Spam,
    /// A word of one of the given built-in lists occurs.
    KeywordPreset(Vec<KeywordPresetType>),
    Unknown(u8),
}

impl Clone for Trigger {
    fn clone(&self) -> (r: Self)
        ensures
            self.same(&r),
    {
        match self {
            Trigger::Keyword(words) => Trigger::Keyword(words.clone()),
            Trigger::HarmfulLink => Trigger::HarmfulLink,
            Trigger::Spam => Trigger::Spam,
            Trigger::KeywordPreset(presets) => Trigger::KeywordPreset(presets.clone()),
            Trigger::Unknown(unknown) => Trigger::Unknown(*unknown),
        }
    }
}

impl Trigger {
    /// Whether two triggers hold the same values, lists compared item by item.
    pub open spec fn same(&self, other: &Trigger) -> bool {
        match (*self, *other) {
            (Trigger::Keyword(a), Trigger::Keyword(b)) => a@ == b@,
            (Trigger::HarmfulLink, Trigger::HarmfulLink) => true,
            (Trigger::Spam, Trigger::Spam) => true,
            (Trigger::KeywordPreset(a), Trigger::KeywordPreset(b)) => a@ == b@,
            (Trigger::Unknown(a), Trigger::Unknown(b)) => a == b,
            _ => false,
        }
    }

    /// The kind of this trigger: the variant without what it carries.
    pub open spec fn spec_kind(&self) -> TriggerType {
        match self {
            Trigger::Keyword(_) => TriggerType::Keyword,
            Trigger::HarmfulLink => TriggerType::HarmfulLink,
            Trigger::Spam => TriggerType::Spam,
            Trigger::KeywordPreset(_) => TriggerType::KeywordPreset,
            Trigger::Unknown(unknown) => TriggerType::Unknown(*unknown),
        }
    }

    /// The kind of this trigger: the variant without what it carries.
    #[verifier::when_used_as_spec(spec_kind)]
    pub fn kind(&self) -> (r: TriggerType)
        ensures
            r == self.spec_kind(),
    {
        match self {
            Trigger::Keyword(_) => TriggerType::Keyword,
            Trigger::HarmfulLink => TriggerType::HarmfulLink,
            Trigger::Spam => TriggerType::Spam,
            Trigger::KeywordPreset(_) => TriggerType::KeywordPreset,
            Trigger::Unknown(unknown) => TriggerType::Unknown(*unknown),
        }
    }
}

/// The kind of a [`Trigger`].
#[derive(Clone, Copy, Debug, PartialEq, Eq, Structural, Hash)]
pub enum TriggerType {
    Keyword,
    HarmfulLink,
    Spam,
    KeywordPreset,
    /// A number that this library has no name for.
    Unknown(u8),
}

impl From<u8> for TriggerType {
    fn from(value: u8) -> (r: Self) {
        match value {
            1 => TriggerType::Keyword,
            2 => TriggerType::HarmfulLink,
            3 => TriggerType::Spam,
            4 => TriggerType::KeywordPreset,
            _ => TriggerType::Unknown(value),
        }
    }
}

impl vstd::std_specs::convert::FromSpecImpl<u8> for TriggerType {
    open spec fn obeys_from_spec() -> bool {
        true
    }

    open spec fn from_spec(value: u8) -> Self {
        match value {
            1 => TriggerType::Keyword,
            2 => TriggerType::HarmfulLink,
            3 => TriggerType::Spam,
            4 => TriggerType::KeywordPreset,
            _ => TriggerType::Unknown(value),
        }
    }
}

impl From<TriggerType> for u8 {
    fn from(value: TriggerType) -> (r: Self) {
        match value {
            TriggerType::Keyword => 1,
            TriggerType::HarmfulLink => 2,
            TriggerType::Spam => 3,
            TriggerType::KeywordPreset => 4,
            TriggerType::Unknown(unknown) => unknown,
        }
    }
}

impl vstd::std_specs::convert::FromSpecImpl<TriggerType> for u8 {
    open spec fn obeys_from_spec() -> bool {
        true
    }

    open spec fn from_spec(value: TriggerType) -> Self {
        match value {
            TriggerType::Keyword => 1,
            TriggerType::HarmfulLink => 2,
            TriggerType::Spam => 3,
            TriggerType::KeywordPreset => 4,
            TriggerType::Unknown(unknown) => unknown,
        }
    }
}

/// The trigger settings of a rule, as an audit log entry records a change of them.
#[derive(Clone, Debug, PartialEq, Eq)]
pub struct TriggerMetadata {
    pub keyword_filter: Option<Vec<String>>,
    pub presets: Option<Vec<KeywordPresetType>>,
}

/// A built-in word list.
#[derive(Clone, Copy, Debug, PartialEq, Eq, Structural, Hash)]
pub enum KeywordPresetType {
    Profanity,
    SexualContent,
    Slurs,
    /// A number that this library has no name for.
    Unknown(u8),
}

impl From<u8> for KeywordPresetType {
    fn from(value: u8) -> (r: Self) {
        match value {
            1 => KeywordPresetType::Profanity,
            2 => KeywordPresetType::SexualContent,
            3 => KeywordPresetType::Slurs,
            _ => KeywordPresetType::Unknown(value),
        }
    }
}

impl vstd::std_specs::convert::FromSpecImpl<u8> for KeywordPresetType {
    open spec fn obeys_from_spec() -> bool {
        true
    }

    open spec fn from_spec(value: u8) -> Self {
        match value {
            1 => KeywordPresetType::Profanity,
            2 => KeywordPresetType::SexualContent,
            3 => KeywordPresetType::Slurs,
            _ => KeywordPresetType::Unknown(value),
        }
    }
}

impl From<KeywordPresetType> for u8 {
    fn from(value: KeywordPresetType) -> (r: Self) {
        match value {
            KeywordPresetType::Profanity => 1,
            KeywordPresetType::SexualContent => 2,
            KeywordPresetType::Slurs => 3,
            KeywordPresetType::Unknown(unknown) => unknown,
        }
    }
}

impl vstd::std_specs::convert::FromSpecImpl<KeywordPresetType> for u8 {
    open spec fn obeys_from_spec() -> bool {
        true
    }

    open spec fn from_spec(value: KeywordPresetType) -> Self {
        match value {
            KeywordPresetType::Profanity => 1,
            KeywordPresetType::SexualContent => 2,
            KeywordPresetType::Slurs => 3,
            KeywordPresetType::Unknown(unknown) => unknown,
        }
    }
}

/// What a rule does when it is set off.
#[derive(Clone, Copy, Debug, PartialEq, Eq, Structural)]
pub enum Action {
    /// Keeps the message from being posted.
    BlockMessage,
    /// Reports the content to the given channel.
    Alert(ChannelId),
    /// Times the user out for the given number of seconds; the platform takes up
    /// to 2419200 (four weeks).
    Timeout(u64),
    Unknown(u8),
}

impl Action {
    /// The kind of this action: the variant without what it carries.
    pub open spec fn spec_kind(&self) -> ActionType {
        match self {
            Action::BlockMessage => ActionType::BlockMessage,
            Action::Alert(_) => ActionType::Alert,
            Action::Timeout(_) => ActionType::Timeout,
            Action::Unknown(unknown) => ActionType::Unknown(*unknown),
        }
    }

    /// The kind of this action: the variant without what it carries.
    #[verifier::when_used_as_spec(spec_kind)]
    pub fn kind(&self) -> (r: ActionType)
        ensures
            r == self.spec_kind(),
    {
        match self {
            Action::BlockMessage => ActionType::BlockMessage,
            Action::Alert(_) => ActionType::Alert,
            Action::Timeout(_) => ActionType::Timeout,
            Action::Unknown(unknown) => ActionType::Unknown(*unknown),
        }
    }
}

/// What the gateway reports when a rule was set off and one of its actions ran.
#[derive(Debug, PartialEq, Eq)]
pub struct ActionExecution {
    /// The guild in which the action ran.
    pub guild_id: GuildId,
    pub action: Action,
    /// The rule the action belongs to.
    pub rule_id: RuleId,
    pub trigger_type: TriggerType,
    /// The user whose content set the rule off.
    pub user_id: UserId,
    /// The channel the content was posted in.
    pub channel_id: Option<ChannelId>,
    /// The message the content belongs to; none if it was blocked.
    pub message_id: Option<MessageId>,
    /// The system message posted for an alert; none for other actions.
    pub alert_system_message_id: Option<MessageId>,
    /// The content itself.
    pub content: String,
    /// The configured word that matched.
    pub matched_keyword: Option<String>,
    /// The part of the content that matched.
    pub matched_content: Option<String>,
}

impl Clone for ActionExecution {
    fn clone(&self) -> (r: Self)
        ensures
            r == *self,
    {
        ActionExecution {
            guild_id: self.guild_id,
            action: self.action,
            rule_id: self.rule_id,
            trigger_type: self.trigger_type,
            user_id: self.user_id,
            channel_id: self.channel_id,
            message_id: self.message_id,
            alert_system_message_id: self.alert_system_message_id,
            content: self.content.clone(),
            matched_keyword: self.matched_keyword.clone(),
            matched_content: self.matched_content.clone(),
        }
    }
}

/// The kind of an [`Action`].
#[derive(Clone, Copy, Debug, PartialEq, Eq, Structural, Hash)]
pub enum ActionType {
    BlockMessage,
    Alert,
    Timeout,
    /// A number that this library has no name for.
    Unknown(u8),
}

impl From<u8> for ActionType {
    fn from(value: u8) -> (r: Self) {
        match value {
            1 => ActionType::BlockMessage,
            2 => ActionType::Alert,
            3 => ActionType::Timeout,
            _ => ActionType::Unknown(value),
        }
    }
}

impl vstd::std_specs::convert::FromSpecImpl<u8> for ActionType {
    open spec fn obeys_from_spec() -> bool {
        true
    }

    open spec fn from_spec(value: u8) -> Self {
        match value {
            1 => ActionType::BlockMessage,
            2 => ActionType::Alert,
            3 => ActionType::Timeout,
            _ => ActionType::Unknown(value),
        }
    }
}

impl From<ActionType> for u8 {
    fn from(value: ActionType) -> (r: Self) {
        match value {
            ActionType::BlockMessage => 1,
            ActionType::Alert => 2,
            ActionType::Timeout => 3,
            ActionType::Unknown(unknown) => unknown,
        }
    }
}

impl vstd::std_specs::convert::FromSpecImpl<ActionType> for u8 {
    open spec fn obeys_from_spec() -> bool {
        true
    }

    open spec fn from_spec(value: ActionType) -> Self {
        match value {
            ActionType::BlockMessage => 1,
            ActionType::Alert => 2,
            ActionType::Timeout => 3,
            ActionType::Unknown(unknown) => unknown,
        }
    }
}

} // verus!
