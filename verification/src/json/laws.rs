//! What is written as JSON reads back as what it was.
//!
//! This holds of values in their usual form: a kind that has a name is held under
//! that name, not as `Unknown` with the name's number.

use vstd::prelude::*;
use vstd::std_specs::convert::FromSpec;
use crate::json::decimal::lemma_decimal_reads_back;
use crate::json::{member, optional, Json};
use crate::model::application::component::{Button, ButtonKind, ButtonStyle, ComponentType};
use crate::model::channel::ReactionType;
use crate::model::guild::automod::{Action, ActionType, KeywordPresetType, Trigger, TriggerType};

verus! {

/// Whether the kind is held under its name where it has one.
pub open spec fn usual_action(kind: ActionType) -> bool {
    <ActionType as FromSpec<u8>>::from_spec(<u8 as FromSpec<ActionType>>::from_spec(kind)) == kind
}

/// Whether the kind is held under its name where it has one.
pub open spec fn usual_trigger(kind: TriggerType) -> bool {
    <TriggerType as FromSpec<u8>>::from_spec(<u8 as FromSpec<TriggerType>>::from_spec(kind))
        == kind
}

/// Whether the word list is held under its name where it has one.
pub open spec fn usual_preset(preset: KeywordPresetType) -> bool {
    <KeywordPresetType as FromSpec<u8>>::from_spec(
        <u8 as FromSpec<KeywordPresetType>>::from_spec(preset),
    ) == preset
}

/// Whether the kind is held under its name where it has one.
pub open spec fn usual_component(kind: ComponentType) -> bool {
    <ComponentType as FromSpec<u8>>::from_spec(<u8 as FromSpec<ComponentType>>::from_spec(kind))
        == kind
}

/// Whether the look is held under its name where it has one, and is not the
/// number that stands for a link.
pub open spec fn usual_style(style: ButtonStyle) -> bool {
    &&& <ButtonStyle as FromSpec<u8>>::from_spec(<u8 as FromSpec<ButtonStyle>>::from_spec(style))
        == style
    &&& style != ButtonStyle::Unknown(5)
}

/// An action that is written as JSON reads back as the action.
pub proof fn lemma_action_reads_back(a: Action)
    requires
        usual_action(a.spec_kind()),
    ensures
        Action::read(a.json()) == Some(a),
{
    reveal_with_fuel(member, 3);
    reveal_strlit("type");
    reveal_strlit("metadata");
    reveal_strlit("channel_id");
    reveal_strlit("duration_seconds");
    let members = a.json()->Object_0;
    assert(member(members, "type"@) == Some(members[0].1));
    match a {
        Action::Alert(channel) => {
            lemma_decimal_reads_back(channel.0);
            assert(members.drop_first()[0].0 == "metadata"@);
            assert(member(members, "metadata"@) == Some(members[1].1));
            let inner = members[1].1->Object_0;
            assert(member(inner, "channel_id"@) == Some(inner[0].1));
        },
        Action::Timeout(_) => {
            assert(members.drop_first()[0].0 == "metadata"@);
            assert(member(members, "metadata"@) == Some(members[1].1));
            let inner = members[1].1->Object_0;
            assert(member(inner, "duration_seconds"@) == Some(inner[0].1));
        },
        _ => {},
    }
}

/// A trigger that is written as JSON reads back as the trigger.
pub proof fn lemma_trigger_reads_back(t: Trigger)
    requires
        usual_trigger(t.spec_kind()),
        t matches Trigger::KeywordPreset(presets) ==> forall|i: int|
            0 <= i < presets@.len() ==> usual_preset(#[trigger] presets@[i]),
    ensures
        Trigger::reads_as(t.json(), t),
{
    reveal_with_fuel(member, 3);
    reveal_strlit("trigger_type");
    reveal_strlit("trigger_metadata");
    reveal_strlit("keyword_filter");
    reveal_strlit("presets");
    let members = t.json()->Object_0;
    assert(member(members, "trigger_type"@) == Some(members[0].1));
    assert(members.drop_first()[0].0 == "trigger_metadata"@);
    assert(member(members, "trigger_metadata"@) == Some(members[1].1));
    let inner = members[1].1->Object_0;
    match t {
        Trigger::Keyword(_) => {
            assert(member(inner, "keyword_filter"@) == Some(inner[0].1));
        },
        Trigger::KeywordPreset(_) => {
            assert(member(inner, "presets"@) == Some(inner[0].1));
        },
        _ => {},
    }
}

/// An emoji that is written as JSON reads back as the emoji.
pub proof fn lemma_emoji_reads_back(e: ReactionType)
    ensures
        ReactionType::reads_as(e.json(), e),
{
    reveal_with_fuel(member, 4);
    reveal_strlit("animated");
    reveal_strlit("id");
    reveal_strlit("name");
    let members = e.json()->Object_0;
    match e {
        ReactionType::Custom { id, .. } => {
            lemma_decimal_reads_back(id.0);
            let rest = members.drop_first();
            assert(member(members, "animated"@) == Some(members[0].1));
            assert(rest[0].0 == "id"@);
            assert(member(rest, "id"@) == Some(rest[0].1));
            assert(member(members, "id"@) == Some(members[1].1));
            assert(rest.drop_first()[0].0 == "name"@);
            assert(member(rest.drop_first(), "name"@) == Some(members[2].1));
            assert(member(rest, "name"@) == Some(members[2].1));
            assert(member(members, "name"@) == Some(members[2].1));
        },
        ReactionType::Unicode(_) => {
            assert(member(members, "name"@) == Some(members[0].1));
            assert(members.len() == 1);
            assert(members[0].0.len() == 4);
            assert("id"@.len() == 2);
            assert(members.drop_first().len() == 0);
            assert(member(members.drop_first(), "id"@) is None);
            assert(member(members, "id"@) is None);
        },
    }
}

/// A button that is written as JSON reads back as the button.
pub proof fn lemma_button_reads_back(b: Button)
    requires
        usual_component(b.kind),
        b.data matches ButtonKind::NonLink { style, .. } ==> usual_style(style),
    ensures
        Button::reads_as(b.json(), b),
{
    reveal_with_fuel(member, 7);
    reveal_strlit("type");
    reveal_strlit("style");
    reveal_strlit("url");
    reveal_strlit("custom_id");
    reveal_strlit("label");
    reveal_strlit("emoji");
    reveal_strlit("disabled");
    assert("style"@[0] == 's' && "label"@[0] == 'l' && "emoji"@[0] == 'e');
    assert("type"@.len() == 4 && "url"@.len() == 3 && "custom_id"@.len() == 9);
    assert("disabled"@.len() == 8);
    let members = b.json()->Object_0;
    let last = members.len() - 1;
    assert(members[0].0 == "type"@);
    assert(members[1].0 == "style"@);
    assert(members[2].0 == "url"@ || members[2].0 == "custom_id"@);
    assert(members[3].0 == "label"@);
    assert(members[last].0 == "disabled"@);
    assert(members.drop_first()[0] == members[1]);
    assert(members.drop_first().drop_first()[0] == members[2]);
    assert(members.drop_first().drop_first().drop_first()[0] == members[3]);
    assert(member(members, "type"@) == Some(members[0].1));
    assert(member(members, "style"@) == Some(members[1].1));
    assert(member(members, "label"@) == Some(members[3].1));
    match b.emoji {
        Some(e) => {
            lemma_emoji_reads_back(e);
            assert(members.len() == 6);
            assert(members.drop_first().drop_first().drop_first().drop_first()[0] == members[4]);
            assert(members.drop_first().drop_first().drop_first().drop_first().drop_first()[0]
                == members[5]);
            assert(member(members, "emoji"@) == Some(members[4].1));
            assert(member(members, "disabled"@) == Some(members[5].1));
        },
        None => {
            assert(members.len() == 5);
            assert(members.drop_first().drop_first().drop_first().drop_first()[0] == members[4]);
            assert(members.drop_first().drop_first().drop_first().drop_first().drop_first().len()
                == 0);
            assert(member(members, "disabled"@) == Some(members[4].1));
            assert(member(members, "emoji"@) is None);
        },
    }
    match b.data {
        ButtonKind::Link { .. } => {
            assert(member(members, "url"@) == Some(members[2].1));
        },
        ButtonKind::NonLink { .. } => {
            assert(member(members, "custom_id"@) == Some(members[2].1));
        },
    }
}

} // verus!
