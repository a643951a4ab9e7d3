use event_dispatch::builder::create_embed::CreateEmbed;
use event_dispatch::json::Value;
use event_dispatch::model::application::component::{Button, ButtonKind, ButtonStyle, ComponentType};
use event_dispatch::model::channel::embed::{Embed, EmbedField, EmbedFooter, EmbedImage, EmbedVideo};
use event_dispatch::model::colour::Colour;
use event_dispatch::model::guild::automod::{Action, KeywordPresetType, Trigger};
use event_dispatch::model::id::ChannelId;

fn to_serde(value: &Value) -> serde_json::Value {
    match value {
        Value::Null => serde_json::Value::Null,
        Value::Bool(b) => serde_json::Value::Bool(*b),
        Value::Number(n) => serde_json::Value::from(*n),
        Value::String(s) => serde_json::Value::String(s.clone()),
        Value::Array(items) => serde_json::Value::Array(items.iter().map(to_serde).collect()),
        Value::Object(members) => {
            let mut map = serde_json::Map::new();
            for (key, member) in members {
                map.insert(key.clone(), to_serde(member));
            }
            serde_json::Value::Object(map)
        },
    }
}

fn from_serde(value: &serde_json::Value) -> Value {
    match value {
        serde_json::Value::Null => Value::Null,
        serde_json::Value::Bool(b) => Value::Bool(*b),
        serde_json::Value::Number(n) => Value::Number(n.as_u64().unwrap()),
        serde_json::Value::String(s) => Value::String(s.clone()),
        serde_json::Value::Array(items) => Value::Array(items.iter().map(from_serde).collect()),
        serde_json::Value::Object(map) => {
            Value::Object(map.iter().map(|(k, v)| (k.clone(), from_serde(v))).collect())
        },
    }
}

fn object(members: Vec<(&str, serde_json::Value)>) -> serde_json::Value {
    let mut map = serde_json::Map::new();
    for (key, member) in members {
        map.insert(key.to_string(), member);
    }
    serde_json::Value::Object(map)
}

fn text(s: &str) -> serde_json::Value {
    serde_json::Value::String(s.to_string())
}

fn number(n: u64) -> serde_json::Value {
    serde_json::Value::from(n)
}

fn assert_button_json(data: &Button, json: serde_json::Value) {
    let written = to_serde(&data.to_json());
    assert!(written == json, "data written as {written}, but {json} was expected");
    let read = Button::from_json(&from_serde(&json)).unwrap();
    assert_eq!(&read, data);
}

fn assert_trigger_json(data: &Trigger, json: serde_json::Value) {
    let written = to_serde(&data.to_json());
    assert!(written == json, "data written as {written}, but {json} was expected");
    let read = Trigger::from_json(&from_serde(&json)).unwrap();
    assert_eq!(&read, data);
}

fn assert_action_json(data: &Action, json: serde_json::Value) {
    let written = to_serde(&data.to_json());
    assert!(written == json, "data written as {written}, but {json} was expected");
    let read = Action::from_json(&from_serde(&json)).unwrap();
    assert_eq!(&read, data);
}

#[test]
fn test_from_embed() {
    let embed = Embed {
        author: None,
        colour: Some(Colour::new(0xFF0011)),
        description: Some("This is a test description".to_string()),
        fields: vec![
            EmbedField { inline: false, name: "a".to_string(), value: "b".to_string() },
            EmbedField { inline: true, name: "c".to_string(), value: "z".to_string() },
        ],
        footer: Some(EmbedFooter {
            text: "This is a hakase footer".to_string(),
            icon_url: Some("https://i.imgur.com/XfWpfCV.gif".to_string()),
            proxy_icon_url: None,
        }),
        image: Some(EmbedImage {
            url: "https://i.imgur.com/XfWpfCV.gif".to_string(),
            proxy_url: Some("a".to_string()),
            height: Some(213),
            width: Some(224),
        }),
        kind: Some("rich".to_string()),
        provider: None,
        thumbnail: None,
        timestamp: None,
        title: Some("hakase".to_string()),
        url: Some("https://i.imgur.com/XfWpfCV.gif".to_string()),
        video: Some(EmbedVideo {
            url: "https://i.imgur.com/XfWpfCV.mp4".to_string(),
            proxy_url: Some("a".to_string()),
            height: Some(213),
            width: Some(224),
        }),
    };

    let builder = CreateEmbed::from(embed)
        .colour(Colour::new(0xFF0011))
        .description("This is a hakase description")
        .image("https://i.imgur.com/XfWpfCV.gif")
        .title("still a hakase")
        .url("https://i.imgur.com/XfWpfCV.gif");

    let built = to_serde(&builder.to_json());

    let obj = object(vec![
        ("color", number(0xFF0011)),
        ("description", text("This is a hakase description")),
        ("title", text("still a hakase")),
        ("type", text("rich")),
        ("url", text("https://i.imgur.com/XfWpfCV.gif")),
        (
            "fields",
            serde_json::Value::Array(vec![
                object(vec![
                    ("inline", serde_json::Value::Bool(false)),
                    ("name", text("a")),
                    ("value", text("b")),
                ]),
                object(vec![
                    ("inline", serde_json::Value::Bool(true)),
                    ("name", text("c")),
                    ("value", text("z")),
                ]),
            ]),
        ),
        ("image", object(vec![("url", text("https://i.imgur.com/XfWpfCV.gif"))])),
        (
            "footer",
            object(vec![
                ("text", text("This is a hakase footer")),
                ("icon_url", text("https://i.imgur.com/XfWpfCV.gif")),
            ]),
        ),
        (
            "video",
            object(vec![
                ("url", text("https://i.imgur.com/XfWpfCV.mp4")),
                ("proxy_url", text("a")),
                ("height", number(213)),
                ("width", number(224)),
            ]),
        ),
    ]);

    assert_eq!(built, obj);
}

#[test]
fn test_button_serde() {
    let mut button = Button {
        kind: ComponentType::Button,
        data: ButtonKind::NonLink { custom_id: "hello".into(), style: ButtonStyle::Danger },
        label: "a".into(),
        emoji: None,
        disabled: false,
    };
    assert_button_json(
        &button,
        object(vec![
            ("type", number(2)),
            ("style", number(4)),
            ("custom_id", text("hello")),
            ("label", text("a")),
            ("disabled", serde_json::Value::Bool(false)),
        ]),
    );

    button.data = ButtonKind::Link { url: "https://google.com".into() };
    assert_button_json(
        &button,
        object(vec![
            ("type", number(2)),
            ("style", number(5)),
            ("url", text("https://google.com")),
            ("label", text("a")),
            ("disabled", serde_json::Value::Bool(false)),
        ]),
    );
}

#[test]
fn rule_trigger_serde() {
    assert_trigger_json(
        &Trigger::Keyword(vec![String::from("foo"), String::from("bar")]),
        object(vec![
            ("trigger_type", number(1)),
            (
                "trigger_metadata",
                object(vec![(
                    "keyword_filter",
                    serde_json::Value::Array(vec![text("foo"), text("bar")]),
                )]),
            ),
        ]),
    );

    assert_trigger_json(
        &Trigger::HarmfulLink,
        object(vec![("trigger_type", number(2)), ("trigger_metadata", object(vec![]))]),
    );

    assert_trigger_json(
        &Trigger::Spam,
        object(vec![("trigger_type", number(3)), ("trigger_metadata", object(vec![]))]),
    );

    assert_trigger_json(
        &Trigger::KeywordPreset(vec![
            KeywordPresetType::Profanity,
            KeywordPresetType::SexualContent,
            KeywordPresetType::Slurs,
        ]),
        object(vec![
            ("trigger_type", number(4)),
            (
                "trigger_metadata",
                object(vec![(
                    "presets",
                    serde_json::Value::Array(vec![number(1), number(2), number(3)]),
                )]),
            ),
        ]),
    );

    assert_trigger_json(
        &Trigger::Unknown(123),
        object(vec![("trigger_type", number(123)), ("trigger_metadata", object(vec![]))]),
    );
}

#[test]
fn action_serde() {
    assert_action_json(&Action::BlockMessage, object(vec![("type", number(1))]));

    assert_action_json(
        &Action::Alert(ChannelId::new(123)),
        object(vec![("type", number(2)), ("metadata", object(vec![("channel_id", text("123"))]))]),
    );

    assert_action_json(
        &Action::Timeout(1024),
        object(vec![
            ("type", number(3)),
            ("metadata", object(vec![("duration_seconds", number(1024))])),
        ]),
    );

    assert_action_json(&Action::Unknown(123), object(vec![("type", number(123))]));
}
