//! Auto moderation triggers and actions as JSON.
//!
//! A trigger is written as two members, `trigger_type` and `trigger_metadata`; an
//! action as `type` and, where it carries something, `metadata`. Identifiers are
//! written as decimal text.

use vstd::prelude::*;
use vstd::std_specs::convert::FromSpec;
use crate::json::decimal::{decimal, decimal_text, parse_decimal, parsed_decimal};
use crate::json::{
    items_view,
    Json,
    ObjectWriter,
    Value,
};
use crate::model::guild::automod::{Action, ActionType, KeywordPresetType, Trigger, TriggerType};
use crate::model::id::ChannelId;

verus! {

/// The number that stands for the kind of a trigger.
pub open spec fn trigger_number(kind: TriggerType) -> u64 {
    <u8 as FromSpec<TriggerType>>::from_spec(kind) as u64
}

/// The number that stands for a built-in word list.
pub open spec fn preset_number(preset: KeywordPresetType) -> u64 {
    <u8 as FromSpec<KeywordPresetType>>::from_spec(preset) as u64
}

/// The number that stands for the kind of an action.
pub open spec fn action_number(kind: ActionType) -> u64 {
    <u8 as FromSpec<ActionType>>::from_spec(kind) as u64
}

/// The words as JSON texts.
pub open spec fn words_json(words: Seq<String>) -> Seq<Json> {
    words.map_values(|w: String| Json::Text(w@))
}

/// The word lists as JSON numbers.
pub open spec fn presets_json(presets: Seq<KeywordPresetType>) -> Seq<Json> {
    presets.map_values(|p: KeywordPresetType| Json::Number(preset_number(p)))
}

/// Whether the JSON value `j` reads as the word list `preset`: it is the number
/// that stands for it.
pub open spec fn preset_reads_as(j: Json, preset: KeywordPresetType) -> bool {
    match j {
        Json::Number(n) => n <= u8::MAX && preset == <KeywordPresetType as FromSpec<
            u8,
        >>::from_spec(n as u8),
        _ => false,
    }
}

impl Trigger {
    /// What the trigger carries, as the members of `trigger_metadata`.
    pub open spec fn metadata_json(&self) -> Seq<(Seq<char>, Json)> {
        match self {
            Trigger::Keyword(words) => seq![("keyword_filter"@, Json::Array(words_json(words@)))],
            Trigger::KeywordPreset(presets) => seq![
                ("presets"@, Json::Array(presets_json(presets@))),
            ],
            _ => Seq::empty(),
        }
    }

    /// The trigger as JSON.
    pub open spec fn json(&self) -> Json {
        Json::Object(
            seq![
                ("trigger_type"@, Json::Number(trigger_number(self.spec_kind()))),
                ("trigger_metadata"@, Json::Object(self.metadata_json())),
            ],
        )
    }

    /// Writes the trigger as JSON.
    pub fn to_json(&self) -> (r: Value)
        ensures
            r@ == self.json(),
    {
        let mut metadata = ObjectWriter::new();
        match self {
            Trigger::Keyword(words) => {
                let mut items: Vec<Value> = Vec::new();
                let mut i: usize = 0;
                while i < words.len()
                    invariant
                        i <= words.len(),
                        items@.len() == i,
                        forall|k: int|
                            0 <= k < i ==> (#[trigger] items@[k])@ == Json::Text(words@[k]@),
                    decreases words.len() - i,
                {
                    items.push(Value::String(words[i].clone()));
                    i = i + 1;
                }
                assert(items_view(items@) =~= words_json(words@));
                metadata.put("keyword_filter", Value::array(items));
            },
            Trigger::KeywordPreset(presets) => {
                let mut items: Vec<Value> = Vec::new();
                let mut i: usize = 0;
                while i < presets.len()
                    invariant
                        i <= presets.len(),
                        items@.len() == i,
                        forall|k: int|
                            0 <= k < i ==> (#[trigger] items@[k])@ == Json::Number(
                                preset_number(presets@[k]),
                            ),
                    decreases presets.len() - i,
                {
                    items.push(Value::Number(u8::from(presets[i]) as u64));
                    i = i + 1;
                }
                assert(items_view(items@) =~= presets_json(presets@));
                metadata.put("presets", Value::array(items));
            },
            _ => {},
        }
        assert(metadata@ =~= self.metadata_json());
        let mut object = ObjectWriter::new();
        object.put("trigger_type", Value::Number(u8::from(self.kind()) as u64));
        object.put("trigger_metadata", metadata.finish());
        assert(object@ =~= self.json()->Object_0);
        object.finish()
    }

    /// Whether the JSON value `j` reads as the trigger `t`: its `trigger_type` is
    /// the number of the trigger's kind, and for a trigger that carries a list,
    /// `trigger_metadata` holds that list under its name.
    pub open spec fn reads_as(j: Json, t: Trigger) -> bool {
        &&& j.get("trigger_type"@) matches Some(Json::Number(n))
        &&& n <= u8::MAX
        &&& t.spec_kind() == <TriggerType as FromSpec<u8>>::from_spec(n as u8)
        &&& match t {
            Trigger::Keyword(words) => {
                &&& j.get("trigger_metadata"@) matches Some(metadata)
                &&& metadata.get("keyword_filter"@) == Some(Json::Array(words_json(words@)))
            },
            Trigger::KeywordPreset(presets) => {
                &&& j.get("trigger_metadata"@) matches Some(metadata)
                &&& metadata.get("presets"@) matches Some(Json::Array(numbers))
                &&& numbers.len() == presets@.len()
                &&& forall|i: int|
                    0 <= i < numbers.len() ==> preset_reads_as(#[trigger] numbers[i], presets@[i])
            },
            _ => true,
        }
    }

    /// Reads a trigger from JSON. It fails where `trigger_type` is missing or no
    /// number below 256, and where the list that the kind calls for is missing or
    /// holds something else than it should.
    #[verifier::loop_isolation(false)]
    pub fn from_json(value: &Value) -> (r: Option<Trigger>)
        ensures
            match r {
                Some(t) => Trigger::reads_as(value@, t),
                None => forall|t: Trigger| !Trigger::reads_as(value@, t),
            },
    {
        let n = match value.get("trigger_type") {
            Some(v) => match v.as_number() {
                Some(n) => n,
                None => {
                    return None;
                },
            },
            None => {
                return None;
            },
        };
        if n > 255 {
            return None;
        }
        let kind = TriggerType::from(n as u8);
        match kind {
            TriggerType::Keyword => {
                let list = match value.get("trigger_metadata") {
                    Some(metadata) => match metadata.get("keyword_filter") {
                        Some(list) => list,
                        None => {
                            return None;
                        },
                    },
                    None => {
                        return None;
                    },
                };
                let items = match list.as_array() {
                    Some(items) => items,
                    None => {
                        return None;
                    },
                };
                let mut words: Vec<String> = Vec::new();
                let mut i: usize = 0;
                while i < items.len()
                    invariant
                        i <= items.len(),
                        words@.len() == i,
                        forall|k: int|
                            0 <= k < i ==> (#[trigger] items@[k])@ == Json::Text(words@[k]@),
                    decreases items.len() - i,
                {
                    match items[i].as_text() {
                        Some(word) => {
                            words.push(word.clone());
                        },
                        None => {
                            proof {
                                assert forall|t: Trigger| !Trigger::reads_as(value@, t) by {
                                    if Trigger::reads_as(value@, t) {
                                        let wanted = t->Keyword_0;
                                        assert(words_json(wanted@) == items_view(items@));
                                        assert(words_json(wanted@)[i as int] == items_view(
                                            items@,
                                        )[i as int]);
                                    }
                                }
                            }
                            return None;
                        },
                    }
                    i = i + 1;
                }
                assert(words_json(words@) =~= items_view(items@));
                Some(Trigger::Keyword(words))
            },
            TriggerType::HarmfulLink => Some(Trigger::HarmfulLink),
            TriggerType::Spam => Some(Trigger::Spam),
            TriggerType::KeywordPreset => {
                let list = match value.get("trigger_metadata") {
                    Some(metadata) => match metadata.get("presets") {
                        Some(list) => list,
                        None => {
                            return None;
                        },
                    },
                    None => {
                        return None;
                    },
                };
                let items = match list.as_array() {
                    Some(items) => items,
                    None => {
                        return None;
                    },
                };
                let ghost numbers = items_view(items@);
                let mut presets: Vec<KeywordPresetType> = Vec::new();
                let mut i: usize = 0;
                while i < items.len()
                    invariant
                        i <= items.len(),
                        numbers == items_view(items@),
                        presets@.len() == i,
                        forall|k: int|
                            0 <= k < i ==> preset_reads_as(#[trigger] numbers[k], presets@[k]),
                    decreases items.len() - i,
                {
                    let p = match items[i].as_number() {
                        Some(p) => p,
                        None => {
                            proof {
                                assert forall|t: Trigger| !Trigger::reads_as(value@, t) by {
                                    if Trigger::reads_as(value@, t) {
                                        let wanted = t->KeywordPreset_0;
                                        assert(wanted@.len() == numbers.len());
                                        assert(preset_reads_as(
                                            numbers[i as int],
                                            wanted@[i as int],
                                        ));
                                    }
                                }
                            }
                            return None;
                        },
                    };
                    if p > 255 {
                        proof {
                            assert forall|t: Trigger| !Trigger::reads_as(value@, t) by {
                                if Trigger::reads_as(value@, t) {
                                    assert(numbers[i as int] is Number);
                                }
                            }
                        }
                        return None;
                    }
                    presets.push(KeywordPresetType::from(p as u8));
                    i = i + 1;
                }
                Some(Trigger::KeywordPreset(presets))
            },
            TriggerType::Unknown(unknown) => Some(Trigger::Unknown(unknown)),
        }
    }
}

impl Action {
    /// What the action carries, as the member `metadata`.
    pub open spec fn metadata_json(&self) -> Option<Json> {
        match self {
            Action::Alert(channel_id) => Some(
                Json::Object(seq![("channel_id"@, Json::Text(decimal(channel_id.0)))]),
            ),
            Action::Timeout(seconds) => Some(
                Json::Object(seq![("duration_seconds"@, Json::Number(*seconds))]),
            ),
            _ => None,
        }
    }

    /// The action as JSON.
    pub open spec fn json(&self) -> Json {
        Json::Object(
            seq![("type"@, Json::Number(action_number(self.spec_kind())))] + crate::json::optional(
                "metadata"@,
                self.metadata_json(),
            ),
        )
    }

    /// Writes the action as JSON.
    pub fn to_json(&self) -> (r: Value)
        ensures
            r@ == self.json(),
    {
        let metadata = match self {
            Action::Alert(channel_id) => {
                let mut metadata = ObjectWriter::new();
                metadata.put("channel_id", Value::String(decimal_text(channel_id.0)));
                assert(metadata@ =~= seq![("channel_id"@, Json::Text(decimal(channel_id.0)))]);
                Some(metadata.finish())
            },
            Action::Timeout(seconds) => {
                let mut metadata = ObjectWriter::new();
                metadata.put("duration_seconds", Value::Number(*seconds));
                assert(metadata@ =~= seq![("duration_seconds"@, Json::Number(*seconds))]);
                Some(metadata.finish())
            },
            _ => None,
        };
        let mut object = ObjectWriter::new();
        object.put("type", Value::Number(u8::from(self.kind()) as u64));
        object.put_optional("metadata", metadata);
        assert(object@ =~= self.json()->Object_0);
        object.finish()
    }

    /// The action that the JSON value `j` reads as, if it reads as one: `type` tells
    /// the kind, an alert takes its channel from the decimal text under
    /// `metadata.channel_id`, and a timeout its seconds from the number under
    /// `metadata.duration_seconds`.
    pub open spec fn read(j: Json) -> Option<Action> {
        match j.get("type"@) {
            Some(Json::Number(n)) => if n > u8::MAX {
                None
            } else {
                match <ActionType as FromSpec<u8>>::from_spec(n as u8) {
                    ActionType::BlockMessage => Some(Action::BlockMessage),
                    ActionType::Alert => match j.get("metadata"@) {
                        Some(metadata) => match metadata.get("channel_id"@) {
                            Some(Json::Text(text)) => match parsed_decimal(text) {
                                Some(id) => Some(Action::Alert(ChannelId(id))),
                                None => None,
                            },
                            _ => None,
                        },
                        None => None,
                    },
                    ActionType::Timeout => match j.get("metadata"@) {
                        Some(metadata) => match metadata.get("duration_seconds"@) {
                            Some(Json::Number(seconds)) => Some(Action::Timeout(seconds)),
                            _ => None,
                        },
                        None => None,
                    },
                    ActionType::Unknown(unknown) => Some(Action::Unknown(unknown)),
                }
            },
            _ => None,
        }
    }

    /// Reads an action from JSON.
    pub fn from_json(value: &Value) -> (r: Option<Action>)
        ensures
            r == Action::read(value@),
    {
        let n = match value.get("type") {
            Some(v) => match v.as_number() {
                Some(n) => n,
                None => {
                    return None;
                },
            },
            None => {
                return None;
            },
        };
        if n > 255 {
            return None;
        }
        match ActionType::from(n as u8) {
            ActionType::BlockMessage => Some(Action::BlockMessage),
            ActionType::Alert => {
                let metadata = match value.get("metadata") {
                    Some(metadata) => metadata,
                    None => {
                        return None;
                    },
                };
                let text = match metadata.get("channel_id") {
                    Some(v) => match v.as_text() {
                        Some(text) => text,
                        None => {
                            return None;
                        },
                    },
                    None => {
                        return None;
                    },
                };
                match parse_decimal(text.as_str()) {
                    Some(id) => Some(Action::Alert(ChannelId(id))),
                    None => None,
                }
            },
            ActionType::Timeout => {
                let metadata = match value.get("metadata") {
                    Some(metadata) => metadata,
                    None => {
                        return None;
                    },
                };
                match metadata.get("duration_seconds") {
                    Some(v) => match v.as_number() {
                        Some(seconds) => Some(Action::Timeout(seconds)),
                        None => None,
                    },
                    None => None,
                }
            },
            ActionType::Unknown(unknown) => Some(Action::Unknown(unknown)),
        }
    }
}

} // verus!
