use event_dispatch::builder::create_allowed_mentions::CreateAllowedMentions;
use event_dispatch::builder::create_attachment::{CreateAttachment, ExistingAttachment};
use event_dispatch::builder::create_components::{
    CreateActionRow,
    CreateButton,
    CreateComponents,
    CreateInputText,
    CreateSelectMenu,
    CreateSelectMenuOption,
};
use event_dispatch::builder::create_embed::{CreateEmbed, CreateEmbedAuthor, CreateEmbedFooter};
use event_dispatch::builder::create_quick_modal::{CreateQuickModal, QuickModalResponse};
use event_dispatch::builder::edit_interaction_response::EditInteractionResponse;
use event_dispatch::builder::edit_profile::EditProfile;
use event_dispatch::builder::edit_stage_instance::EditStageInstance;
use event_dispatch::client::bridge::gateway::shard_manager_monitor::{
    monitor_verdict,
    MonitorVerdict,
    ShardManagerError,
    ShardManagerMessage,
};
use event_dispatch::constants::USER_AGENT;
use event_dispatch::error::{Error as LibraryError, ModelError};
use event_dispatch::http::request::{Header, HttpError, LightMethod, Multipart, Request, RouteInfo};
use event_dispatch::json::decimal::{decimal_text, parse_decimal};
use event_dispatch::json::Value as JsonValue;
use event_dispatch::model::application::interaction::modal::ModalSubmitInteraction as Submitted;
use event_dispatch::model::application::component::{
    ActionRowComponent,
    InputText as FilledInput,
    Button as PlainButton,
    ButtonKind as PlainButtonKind,
    ButtonStyle as Look,
    ComponentType as Component,
    InputTextStyle,
};
use event_dispatch::model::channel::embed::{EmbedField as Field, EmbedImage as Image};
use event_dispatch::model::channel::{ChannelType as RoomKind, GuildChannel as GuildRoom, ReactionType as Emote};
use event_dispatch::model::colour::Colour as Paint;
use event_dispatch::model::guild::automod::{
    Action as RuleAction,
    ActionType,
    EventType,
    KeywordPresetType as Preset,
    Trigger as RuleTrigger,
    TriggerType,
};
use event_dispatch::model::guild::scheduled_event::{ScheduledEventStatus, ScheduledEventType};
use event_dispatch::model::id::{
    ApplicationId as AppNumber,
    ChannelId as RoomNumber,
    EmojiId as EmoteId,
    GuildId as GuildNumber,
    InteractionId as InteractionNumber,
    UserId as UserNumber,
};
use event_dispatch::model::user::User as Person;
use event_dispatch::model::timestamp::Timestamp;
use event_dispatch::http::url::ParsedUrl;
use event_dispatch::utils::{can_encode_image, check_overflow, encode_image, image_address};

fn route(path: &str) -> RouteInfo {
    RouteInfo { method: LightMethod::Post, path: path.to_string() }
}

fn header(name: &str, value: &str) -> Header {
    Header { name: name.to_string(), value: value.to_string() }
}

#[test]
fn a_new_embed_is_rich_and_empty() {
    let embed = CreateEmbed::new();
    assert_eq!(embed.0.kind, Some("rich".to_string()));
    assert!(embed.0.fields.is_empty());
    assert_eq!(embed.0.title, None);
    assert_eq!(embed.length(), 0);
    assert_eq!(CreateEmbed::default(), embed);
}

#[test]
fn the_setters_of_an_embed_set_their_member_and_no_other() {
    let embed = CreateEmbed::new()
        .author(CreateEmbedAuthor::new("ann").icon_url("https://a/i.png").url("https://a"))
        .color(Paint::new(7))
        .description("body")
        .field("n1", "v1", true)
        .fields(vec![("n2".to_string(), "v2".to_string(), false)])
        .footer(CreateEmbedFooter::new("foot").icon_url("https://f/i.png"))
        .thumbnail("https://t")
        .timestamp(Timestamp("2004-06-08T16:04:23Z".to_string()))
        .title("title")
        .url("https://u")
        .attachment("cat.png");
    let built = embed.0;
    let author = built.author.unwrap();
    assert_eq!(author.name, "ann");
    assert_eq!(author.icon_url, Some("https://a/i.png".to_string()));
    assert_eq!(author.url, Some("https://a".to_string()));
    assert_eq!(author.proxy_icon_url, None);
    assert_eq!(built.colour, Some(Paint(7)));
    assert_eq!(built.description, Some("body".to_string()));
    assert_eq!(
        built.fields,
        vec![
            Field { name: "n1".to_string(), value: "v1".to_string(), inline: true },
            Field { name: "n2".to_string(), value: "v2".to_string(), inline: false },
        ]
    );
    let footer = built.footer.unwrap();
    assert_eq!(footer.text, "foot");
    assert_eq!(footer.icon_url, Some("https://f/i.png".to_string()));
    assert_eq!(built.thumbnail.unwrap().url, "https://t");
    assert_eq!(built.timestamp, Some(Timestamp("2004-06-08T16:04:23Z".to_string())));
    assert_eq!(built.title, Some("title".to_string()));
    assert_eq!(built.url, Some("https://u".to_string()));
    assert_eq!(
        built.image,
        Some(Image { url: "attachment://cat.png".to_string(), proxy_url: None, height: None, width: None })
    );
    assert_eq!(built.kind, Some("rich".to_string()));
    assert_eq!(built.provider, None);
    assert_eq!(built.video, None);
}

#[test]
fn the_names_of_author_and_footer_can_be_replaced() {
    assert_eq!(CreateEmbedAuthor::new("a").name("b").0.name, "b");
    assert_eq!(CreateEmbedFooter::new("a").text("b").0.text, "b");
}

#[test]
fn the_length_of_an_embed_counts_code_points_of_the_texts_that_count() {
    let embed = CreateEmbed::new()
        .author(CreateEmbedAuthor::new("äb"))
        .description("çd")
        .field("né", "value", false)
        .footer(CreateEmbedFooter::new("fü"))
        .title("ti")
        .url("https://not-counted")
        .image("https://not-counted");
    assert_eq!(embed.length(), 2 + 2 + 2 + 5 + 2 + 2);
    assert_eq!(embed.check_length(), Ok(()));
}

#[test]
fn an_embed_of_6000_code_points_passes_and_one_more_does_not() {
    let full = CreateEmbed::new().description(&"é".repeat(4000)).title(&"x".repeat(2000));
    assert_eq!(full.length(), 6000);
    assert_eq!(full.check_length(), Ok(()));
    let over = full.field("a", "", false);
    assert_eq!(over.check_length(), Err(LibraryError::Model(ModelError::EmbedTooLarge(1))));
    let far_over = over.field(&"n".repeat(10), &"v".repeat(89), true);
    assert_eq!(far_over.check_length(), Err(LibraryError::Model(ModelError::EmbedTooLarge(100))));
}

#[test]
fn check_overflow_tells_the_excess() {
    assert_eq!(check_overflow(5, 5), Ok(()));
    assert_eq!(check_overflow(0, 0), Ok(()));
    assert_eq!(check_overflow(6, 5), Err(1));
    assert_eq!(check_overflow(usize::MAX, 0), Err(usize::MAX));
}

#[test]
fn the_edit_of_an_answer_is_checked_for_content_count_and_embeds_in_that_order() {
    assert_eq!(EditInteractionResponse::new().check_length(), Ok(()));
    let fine = EditInteractionResponse::new().content(&"é".repeat(2000));
    assert_eq!(fine.check_length(), Ok(()));
    let long = EditInteractionResponse::new().content(&"é".repeat(2003));
    assert_eq!(long.check_length(), Err(LibraryError::Model(ModelError::MessageTooLong(3))));

    let ten = EditInteractionResponse::new().embeds(vec![CreateEmbed::new(); 10]);
    assert_eq!(ten.check_length(), Ok(()));
    let eleven = ten.clone().add_embed(CreateEmbed::new());
    assert_eq!(eleven.check_length(), Err(LibraryError::Model(ModelError::EmbedAmount)));

    let big = CreateEmbed::new().description(&"x".repeat(6002));
    let bigger = CreateEmbed::new().description(&"x".repeat(6005));
    let embeds = EditInteractionResponse::new().embeds(vec![CreateEmbed::new(), big.clone(), bigger]);
    assert_eq!(embeds.check_length(), Err(LibraryError::Model(ModelError::EmbedTooLarge(2))));

    let all_wrong = EditInteractionResponse::new()
        .content(&"x".repeat(2001))
        .embeds(vec![big; 11]);
    assert_eq!(all_wrong.check_length(), Err(LibraryError::Model(ModelError::MessageTooLong(1))));
}

#[test]
fn the_setters_of_the_edit_of_an_answer() {
    let one = CreateEmbed::new().title("one");
    let two = CreateEmbed::new().title("two");
    let three = CreateEmbed::new().title("three");
    let edit = EditInteractionResponse::new().add_embed(one.clone());
    assert_eq!(edit.embeds, Some(vec![one.clone()]));
    let edit = edit.add_embeds(vec![two.clone(), three.clone()]);
    assert_eq!(edit.embeds, Some(vec![one.clone(), two.clone(), three.clone()]));
    let edit = edit.embed(two.clone());
    assert_eq!(edit.embeds, Some(vec![two.clone()]));
    let edit = edit.embeds(vec![]);
    assert_eq!(edit.embeds, Some(vec![]));
    let edit = EditInteractionResponse::new().add_embeds(vec![three.clone()]);
    assert_eq!(edit.embeds, Some(vec![three]));

    let edit = EditInteractionResponse::new()
        .content("hi")
        .allowed_mentions(CreateAllowedMentions::new())
        .components(CreateComponents::new());
    assert_eq!(edit.content, Some("hi".to_string()));
    assert_eq!(edit.allowed_mentions, Some(CreateAllowedMentions::new()));
    assert_eq!(edit.components, Some(CreateComponents::new()));
    assert_eq!(edit.embeds, None);
    assert_eq!(edit.attachments, None);
    assert_eq!(EditInteractionResponse::default(), EditInteractionResponse::new());
}

#[test]
fn an_added_file_is_listed_under_its_place_among_the_files() {
    let edit = EditInteractionResponse::new()
        .keep_specific_attachments(vec![900, 901])
        .add_attachment(CreateAttachment::bytes(vec![1], "a.png"))
        .add_attachment(CreateAttachment::bytes(vec![2], "b.png"));
    assert_eq!(edit.files.len(), 2);
    assert_eq!(edit.files[1], CreateAttachment { data: vec![2], filename: "b.png".to_string() });
    assert_eq!(
        edit.attachments,
        Some(vec![
            ExistingAttachment { id: 900 },
            ExistingAttachment { id: 901 },
            ExistingAttachment { id: 0 },
            ExistingAttachment { id: 1 },
        ])
    );
    let kept = edit.keep_specific_attachments(vec![]);
    assert_eq!(kept.attachments, Some(vec![]));
    assert_eq!(kept.files.len(), 2);
    let first = EditInteractionResponse::new().add_attachment(CreateAttachment::bytes(vec![], "c"));
    assert_eq!(first.attachments, Some(vec![ExistingAttachment { id: 0 }]));
}

#[test]
fn an_attachment_from_bytes_holds_them() {
    let file = CreateAttachment::bytes(vec![1, 2, 3], "cat.png");
    assert_eq!(file.data, vec![1, 2, 3]);
    assert_eq!(file.filename, "cat.png");
}

#[test]
fn a_file_from_a_path_needs_a_last_part() {
    assert_eq!(
        CreateAttachment::from_path(vec![1], Some("cat.png")),
        Ok(CreateAttachment { data: vec![1], filename: "cat.png".to_string() })
    );
    assert_eq!(
        CreateAttachment::from_path(vec![1], None),
        Err(LibraryError::Io("attachment path must not be a directory".to_string()))
    );
}

#[test]
fn the_parts_of_a_request_can_be_changed_in_place() {
    let mut request = Request::new(route("https://discord.com/api/v10/gateway"));
    assert!(request.body_mut().is_none());
    request.body(Some(vec![1, 0]));
    request.body_mut().unwrap()[1] = 2;
    request.headers_mut().get_or_insert_with(Vec::new).push(header("x-a", "b"));
    request.route_mut().method = LightMethod::Put;
    assert_eq!(request.body_ref(), Some(&[1u8, 2][..]));
    assert_eq!(request.headers_ref(), &Some(vec![header("x-a", "b")]));
    assert_eq!(request.route_ref().method, LightMethod::Put);
    assert_eq!(request.route_ref().path, "https://discord.com/api/v10/gateway");
}

#[test]
fn a_downloaded_file_is_named_by_the_last_segment_of_its_address() {
    let target = CreateAttachment::download_target("https://example.com/pics/cat.png?size=2").unwrap();
    assert_eq!(target.text, "https://example.com/pics/cat.png?size=2");
    assert_eq!(target.segments, Some(vec!["pics".to_string(), "cat.png".to_string()]));
    let file = CreateAttachment::downloaded(&target, vec![9]).unwrap();
    assert_eq!(file, CreateAttachment { data: vec![9], filename: "cat.png".to_string() });

    let bare = CreateAttachment::download_target("HTTPS://Example.com").unwrap();
    assert_eq!(bare.text, "https://example.com/");
    assert_eq!(bare.segments, Some(vec![String::new()]));
    assert_eq!(CreateAttachment::downloaded(&bare, vec![]).unwrap().filename, "");
}

#[test]
fn of_several_segments_the_last_names_the_file() {
    let address = ParsedUrl {
        text: "https://a/x/y/z".to_string(),
        segments: Some(vec!["x".to_string(), "y".to_string(), "z".to_string()]),
    };
    assert_eq!(CreateAttachment::downloaded(&address, vec![7]).unwrap().filename, "z");
    let one = ParsedUrl { text: "https://a/x".to_string(), segments: Some(vec!["x".to_string()]) };
    assert_eq!(CreateAttachment::downloaded(&one, vec![]).unwrap().filename, "x");
    let empty = ParsedUrl { text: "https://a".to_string(), segments: Some(vec![]) };
    assert_eq!(
        CreateAttachment::downloaded(&empty, vec![]),
        Err(LibraryError::Url("https://a".to_string()))
    );
    let trailing = CreateAttachment::download_target("https://example.com/a/b/").unwrap();
    assert_eq!(
        trailing.segments,
        Some(vec!["a".to_string(), "b".to_string(), String::new()])
    );
    assert_eq!(CreateAttachment::downloaded(&trailing, vec![]).unwrap().filename, "");
}

#[test]
fn text_that_is_no_address_is_refused_with_the_text() {
    assert_eq!(
        CreateAttachment::download_target("not an address"),
        Err(LibraryError::Url("not an address".to_string()))
    );
    assert_eq!(CreateAttachment::download_target(""), Err(LibraryError::Url(String::new())));
}

#[test]
fn an_address_without_path_segments_is_refused_with_the_address() {
    let target = CreateAttachment::download_target("data:text/plain,Hello").unwrap();
    assert_eq!(target.segments, None);
    assert_eq!(
        CreateAttachment::downloaded(&target, vec![1]),
        Err(LibraryError::Url("data:text/plain,Hello".to_string()))
    );
}

#[test]
fn an_image_is_encoded_as_a_data_address_in_base64() {
    assert_eq!(encode_image(&b"hello".to_vec()), "data:image/png;base64,aGVsbG8=");
    assert_eq!(encode_image(&vec![]), "data:image/png;base64,");
    assert_eq!(encode_image(&vec![0xfb, 0xff]), "data:image/png;base64,+/8=");
    assert!(can_encode_image(&vec![1, 2, 3]));
}

#[test]
fn a_data_address_is_the_prefix_and_the_encoded_text() {
    assert_eq!(image_address("aGVsbG8="), "data:image/png;base64,aGVsbG8=");
    assert_eq!(image_address(""), "data:image/png;base64,");
}

#[test]
fn the_target_of_a_download_is_the_parsed_address_or_a_refusal_of_the_text() {
    let parsed = ParsedUrl { text: "https://a/b".to_string(), segments: Some(vec!["b".to_string()]) };
    assert_eq!(CreateAttachment::target("https://a/b", Some(parsed.clone())), Ok(parsed));
    assert_eq!(CreateAttachment::target("nope", None), Err(LibraryError::Url("nope".to_string())));
}

#[test]
fn a_request_is_assembled_from_a_good_address_and_token() {
    let mut request = Request::new(route("ignored"));
    request.body(Some(vec![0; 12]));
    let built = request.assemble("https://example.com/".to_string(), "t");
    assert_eq!(built.url, "https://example.com/");
    assert_eq!(
        built.headers,
        vec![
            header("user-agent", USER_AGENT),
            header("authorization", "t"),
            header("content-type", "application/json"),
            header("content-length", "12"),
        ]
    );
}

#[test]
fn the_edit_of_the_profile() {
    let edit = EditProfile::new();
    assert_eq!(edit.avatar, None);
    assert_eq!(edit.username, None);
    assert_eq!(EditProfile::default(), edit);
    let file = CreateAttachment::bytes(b"hello".to_vec(), "me.png");
    let edit = edit.username("ann").avatar(&file);
    assert_eq!(edit.avatar, Some(Some("data:image/png;base64,aGVsbG8=".to_string())));
    assert_eq!(edit.username, Some("ann".to_string()));
    let edit = edit.delete_avatar();
    assert_eq!(edit.avatar, Some(None));
    assert_eq!(edit.username, Some("ann".to_string()));
    let edit = edit.try_avatar(&file);
    assert_eq!(edit.avatar, Some(Some("data:image/png;base64,aGVsbG8=".to_string())));
}

#[test]
fn the_edit_of_a_stage_is_for_stage_channels() {
    let edit = EditStageInstance::new().topic("talk");
    assert_eq!(edit.topic, Some("talk".to_string()));
    assert_eq!(EditStageInstance::default().topic, None);
    let stage = GuildRoom {
        id: RoomNumber(1),
        guild_id: GuildNumber(1),
        kind: RoomKind::Stage,
        name: "stage".to_string(),
        parent_id: None,
    };
    let voice = GuildRoom { kind: RoomKind::Voice, ..stage.clone() };
    assert_eq!(edit.check_channel(&Some(stage)), Ok(()));
    assert_eq!(edit.check_channel(&None), Ok(()));
    assert_eq!(
        edit.check_channel(&Some(voice)),
        Err(LibraryError::Model(ModelError::InvalidChannelType))
    );
}

#[test]
fn rows_of_components_are_added_and_replaced() {
    let buttons = CreateActionRow::Buttons(vec![CreateButton::new("ok", Look::Primary, "ok-id")]);
    let menu = CreateActionRow::SelectMenu(CreateSelectMenu::new("menu", vec![]));
    let input = CreateActionRow::InputText(CreateInputText::new(InputTextStyle::Short, "l", "i"));
    let rows = CreateComponents::new().add_action_row(buttons.clone());
    assert_eq!(rows.0, vec![buttons.clone()]);
    let rows = rows.add_action_rows(vec![menu.clone(), input.clone()]);
    assert_eq!(rows.0, vec![buttons.clone(), menu.clone(), input.clone()]);
    let rows = rows.set_action_row(input.clone());
    assert_eq!(rows.0, vec![input.clone()]);
    let rows = rows.set_action_rows(vec![menu.clone(), buttons.clone()]);
    assert_eq!(rows.0, vec![menu, buttons]);
    assert_eq!(CreateComponents::default(), CreateComponents::new());
}

#[test]
fn buttons_are_links_or_not() {
    let link = CreateButton::new_link("docs", "https://docs");
    assert_eq!(
        link.0,
        PlainButton {
            kind: Component::Button,
            data: PlainButtonKind::Link { url: "https://docs".to_string() },
            label: "docs".to_string(),
            emoji: None,
            disabled: false,
        }
    );
    let button = CreateButton::new("ok", Look::Success, "ok-id")
        .label("fine")
        .emoji(Emote::Unicode("✅".to_string()))
        .disabled(true);
    assert_eq!(
        button.0,
        PlainButton {
            kind: Component::Button,
            data: PlainButtonKind::NonLink { custom_id: "ok-id".to_string(), style: Look::Success },
            label: "fine".to_string(),
            emoji: Some(Emote::Unicode("✅".to_string())),
            disabled: true,
        }
    );
    assert_eq!(ActionRowComponent::from(button.0.clone()), ActionRowComponent::Button(button.0));
}

#[test]
fn select_menus_and_their_options() {
    let option = CreateSelectMenuOption::new("l", "v");
    assert_eq!(option.label, "l");
    assert_eq!(option.value, "v");
    assert_eq!(option.description, None);
    assert_eq!(option.emoji, None);
    assert_eq!(option.default, None);
    let option = option
        .label("label")
        .value("value")
        .description("about")
        .emoji(Emote::Custom { animated: true, id: EmoteId(5), name: None })
        .default_selection(true);
    assert_eq!(option.label, "label");
    assert_eq!(option.value, "value");
    assert_eq!(option.description, Some("about".to_string()));
    assert_eq!(option.emoji, Some(Emote::Custom { animated: true, id: EmoteId(5), name: None }));
    assert_eq!(option.default, Some(true));

    let menu = CreateSelectMenu::new("menu", vec![option.clone()]);
    assert_eq!(menu.kind, 3);
    assert_eq!(menu.custom_id, "menu");
    assert_eq!(menu.options, vec![option.clone()]);
    assert_eq!(menu.placeholder, None);
    let menu = menu
        .placeholder("choose")
        .custom_id("other")
        .min_values(1)
        .max_values(2)
        .disabled(false)
        .options(vec![]);
    assert_eq!(menu.placeholder, Some("choose".to_string()));
    assert_eq!(menu.custom_id, "other");
    assert_eq!(menu.min_values, Some(1));
    assert_eq!(menu.max_values, Some(2));
    assert_eq!(menu.disabled, Some(false));
    assert!(menu.options.is_empty());
    assert_eq!(menu.kind, 3);
}

#[test]
fn text_inputs() {
    let input = CreateInputText::new(InputTextStyle::Short, "l", "i");
    assert_eq!(input.kind, 4);
    assert_eq!(input.style, InputTextStyle::Short);
    assert_eq!(input.label, "l");
    assert_eq!(input.custom_id, "i");
    assert_eq!(input.placeholder, None);
    assert_eq!(input.required, None);
    let input = input
        .style(InputTextStyle::Paragraph)
        .label("label")
        .custom_id("id")
        .placeholder("type here")
        .min_length(1)
        .max_length(9)
        .value("start")
        .required(true);
    assert_eq!(input.style, InputTextStyle::Paragraph);
    assert_eq!(input.label, "label");
    assert_eq!(input.custom_id, "id");
    assert_eq!(input.placeholder, Some("type here".to_string()));
    assert_eq!(input.min_length, Some(1));
    assert_eq!(input.max_length, Some(9));
    assert_eq!(input.value, Some("start".to_string()));
    assert_eq!(input.required, Some(true));
    assert_eq!(input.kind, 4);
}

#[test]
fn rows_are_written_with_their_kind_and_components() {
    let rows = CreateComponents::new()
        .add_action_row(CreateActionRow::Buttons(vec![CreateButton::new_link("docs", "https://d")]))
        .add_action_row(CreateActionRow::SelectMenu(
            CreateSelectMenu::new("menu", vec![CreateSelectMenuOption::new("l", "v")]).min_values(1),
        ))
        .add_action_row(CreateActionRow::InputText(
            CreateInputText::new(InputTextStyle::Paragraph, "l", "i").required(false),
        ));
    let text = |s: &str| JsonValue::String(s.to_string());
    let member = |k: &str, v: JsonValue| (k.to_string(), v);
    let row = |components: Vec<JsonValue>| {
        JsonValue::Object(vec![
            member("type", JsonValue::Number(1)),
            member("components", JsonValue::Array(components)),
        ])
    };
    let expected = JsonValue::Array(vec![
        row(vec![JsonValue::Object(vec![
            member("type", JsonValue::Number(2)),
            member("style", JsonValue::Number(5)),
            member("url", text("https://d")),
            member("label", text("docs")),
            member("disabled", JsonValue::Bool(false)),
        ])]),
        row(vec![JsonValue::Object(vec![
            member("custom_id", text("menu")),
            member("min_values", JsonValue::Number(1)),
            member(
                "options",
                JsonValue::Array(vec![JsonValue::Object(vec![
                    member("label", text("l")),
                    member("value", text("v")),
                ])]),
            ),
            member("type", JsonValue::Number(3)),
        ])]),
        row(vec![JsonValue::Object(vec![
            member("style", JsonValue::Number(2)),
            member("label", text("l")),
            member("custom_id", text("i")),
            member("required", JsonValue::Bool(false)),
            member("type", JsonValue::Number(4)),
        ])]),
    ]);
    assert_eq!(rows.to_json(), expected);
}

#[test]
fn an_emoji_is_written_and_read_back() {
    let custom = Emote::Custom { animated: true, id: EmoteId(18446744073709551615), name: None };
    let written = custom.to_json();
    assert_eq!(
        written,
        JsonValue::Object(vec![
            ("animated".to_string(), JsonValue::Bool(true)),
            ("id".to_string(), JsonValue::String("18446744073709551615".to_string())),
            ("name".to_string(), JsonValue::Null),
        ])
    );
    assert_eq!(Emote::from_json(&written), Some(custom));
    let named = Emote::Custom { animated: false, id: EmoteId(0), name: Some("wave".to_string()) };
    assert_eq!(Emote::from_json(&named.to_json()), Some(named));
    let unicode = Emote::Unicode("👍".to_string());
    assert_eq!(Emote::from_json(&unicode.to_json()), Some(unicode));

    let too_large = JsonValue::Object(vec![(
        "id".to_string(),
        JsonValue::String("18446744073709551616".to_string()),
    )]);
    assert_eq!(Emote::from_json(&too_large), None);
    let no_number =
        JsonValue::Object(vec![("id".to_string(), JsonValue::String("12a".to_string()))]);
    assert_eq!(Emote::from_json(&no_number), None);
    assert_eq!(Emote::from_json(&JsonValue::Object(vec![])), None);
    assert_eq!(Emote::from_json(&JsonValue::Null), None);
}

#[test]
fn numbers_are_written_in_decimal_digits() {
    assert_eq!(decimal_text(0), "0");
    assert_eq!(decimal_text(7), "7");
    assert_eq!(decimal_text(10), "10");
    assert_eq!(decimal_text(1024), "1024");
    assert_eq!(decimal_text(9_007_199_254_740_993), "9007199254740993");
    assert_eq!(decimal_text(u64::MAX), "18446744073709551615");
    let mut n: u64 = 1;
    for _ in 0..64 {
        assert_eq!(decimal_text(n), n.to_string());
        assert_eq!(decimal_text(n - 1), (n - 1).to_string());
        assert_eq!(parse_decimal(&decimal_text(n)), Some(n));
        n = n.wrapping_mul(2).max(1);
    }
}

#[test]
fn decimal_digits_are_read_and_nothing_else_is() {
    assert_eq!(parse_decimal("0"), Some(0));
    assert_eq!(parse_decimal("123"), Some(123));
    assert_eq!(parse_decimal("+5"), Some(5));
    assert_eq!(parse_decimal("007"), Some(7));
    assert_eq!(parse_decimal("18446744073709551615"), Some(u64::MAX));
    assert_eq!(parse_decimal("18446744073709551616"), None);
    assert_eq!(parse_decimal("99999999999999999999999"), None);
    assert_eq!(parse_decimal("000000000000000000000000001"), Some(1));
    for text in ["", "+", "-", "-1", "++1", "1+", " 1", "1 ", "1_0", "12a", "a", "0x10", "1.0", "１", "٣"] {
        assert_eq!(parse_decimal(text), None, "{text:?}");
    }
    for text in ["0", "+0", "42", "+42", "0042", "", "+", "-0", "18446744073709551616", "x", "4 2"] {
        assert_eq!(parse_decimal(text), text.parse::<u64>().ok(), "{text:?}");
    }
}

#[test]
fn json_that_is_no_button_trigger_or_action_is_refused() {
    assert_eq!(PlainButton::from_json(&JsonValue::Null), None);
    let no_label = JsonValue::Object(vec![
        ("type".to_string(), JsonValue::Number(2)),
        ("style".to_string(), JsonValue::Number(1)),
        ("custom_id".to_string(), JsonValue::String("x".to_string())),
    ]);
    assert_eq!(PlainButton::from_json(&no_label), None);
    let wide = JsonValue::Object(vec![("type".to_string(), JsonValue::Number(256))]);
    assert_eq!(PlainButton::from_json(&wide), None);
    assert_eq!(RuleAction::from_json(&wide), None);
    assert_eq!(RuleTrigger::from_json(&JsonValue::Array(vec![])), None);
    let alert_without_channel = JsonValue::Object(vec![("type".to_string(), JsonValue::Number(2))]);
    assert_eq!(RuleAction::from_json(&alert_without_channel), None);
    let keyword_without_list = JsonValue::Object(vec![
        ("trigger_type".to_string(), JsonValue::Number(1)),
        ("trigger_metadata".to_string(), JsonValue::Object(vec![])),
    ]);
    assert_eq!(RuleTrigger::from_json(&keyword_without_list), None);
    let preset_with_text = JsonValue::Object(vec![
        ("trigger_type".to_string(), JsonValue::Number(4)),
        (
            "trigger_metadata".to_string(),
            JsonValue::Object(vec![(
                "presets".to_string(),
                JsonValue::Array(vec![JsonValue::String("1".to_string())]),
            )]),
        ),
    ]);
    assert_eq!(RuleTrigger::from_json(&preset_with_text), None);
}

#[test]
fn the_first_member_of_a_name_is_the_one_that_is_read() {
    let object = JsonValue::Object(vec![
        ("a".to_string(), JsonValue::Number(1)),
        ("b".to_string(), JsonValue::Bool(true)),
        ("a".to_string(), JsonValue::Number(2)),
    ]);
    assert_eq!(object.get("a"), Some(&JsonValue::Number(1)));
    assert_eq!(object.get("b").and_then(|v| v.as_bool()), Some(true));
    assert_eq!(object.get("c"), None);
    assert_eq!(JsonValue::Number(1).get("a"), None);
    assert_eq!(JsonValue::text("x").as_text(), Some(&"x".to_string()));
    assert_eq!(JsonValue::text("x").as_number(), None);
    assert_eq!(JsonValue::array(vec![]).as_array(), Some(&vec![]));
    assert_eq!(JsonValue::object(vec![]).as_array(), None);
}

#[test]
fn kinds_and_their_numbers() {
    assert_eq!(RuleTrigger::Keyword(vec![]).kind(), TriggerType::Keyword);
    assert_eq!(RuleTrigger::HarmfulLink.kind(), TriggerType::HarmfulLink);
    assert_eq!(RuleTrigger::Spam.kind(), TriggerType::Spam);
    assert_eq!(RuleTrigger::KeywordPreset(vec![Preset::Slurs]).kind(), TriggerType::KeywordPreset);
    assert_eq!(RuleTrigger::Unknown(9).kind(), TriggerType::Unknown(9));
    assert_eq!(RuleAction::BlockMessage.kind(), ActionType::BlockMessage);
    assert_eq!(RuleAction::Alert(RoomNumber(1)).kind(), ActionType::Alert);
    assert_eq!(RuleAction::Timeout(60).kind(), ActionType::Timeout);
    assert_eq!(RuleAction::Unknown(9).kind(), ActionType::Unknown(9));

    assert_eq!(EventType::from(1), EventType::MessageSend);
    assert_eq!(EventType::from(2), EventType::Unknown(2));
    assert_eq!(u8::from(EventType::Unknown(2)), 2);
    assert_eq!(TriggerType::from(4), TriggerType::KeywordPreset);
    assert_eq!(u8::from(TriggerType::Spam), 3);
    assert_eq!(Preset::from(0), Preset::Unknown(0));
    assert_eq!(u8::from(Preset::SexualContent), 2);
    assert_eq!(ActionType::from(3), ActionType::Timeout);
    assert_eq!(u8::from(ActionType::Alert), 2);
    assert_eq!(Component::from(8), Component::ChannelSelect);
    assert_eq!(u8::from(Component::ActionRow), 1);
    assert_eq!(Look::from(5), Look::Unknown(5));
    assert_eq!(u8::from(InputTextStyle::Paragraph), 2);
    assert_eq!(ScheduledEventStatus::from(4), ScheduledEventStatus::Canceled);
    assert_eq!(u8::from(ScheduledEventType::External), 3);
}

#[test]
fn a_request_carries_its_headers_in_order() {
    let mut request = Request::new(route("https://discord.com/api/v10/channels/1/messages"));
    request.body(Some(b"{\"a\":1}".to_vec()));
    request.headers(Some(vec![header("x-audit-log-reason", "why")]));
    assert_eq!(request.body_ref(), Some(&b"{\"a\":1}"[..]));
    assert_eq!(request.headers_ref(), &Some(vec![header("x-audit-log-reason", "why")]));
    assert_eq!(request.route_ref().method, LightMethod::Post);

    let built = request.build("Bot token", None).unwrap();
    assert_eq!(built.method, LightMethod::Post);
    assert_eq!(built.url, "https://discord.com/api/v10/channels/1/messages");
    assert_eq!(
        built.headers,
        vec![
            header("user-agent", USER_AGENT),
            header("authorization", "Bot token"),
            header("content-type", "application/json"),
            header("content-length", "7"),
        ]
    );
    assert_eq!(built.request_headers, vec![header("x-audit-log-reason", "why")]);
    assert_eq!(built.body, Some(b"{\"a\":1}".to_vec()));
    assert_eq!(built.multipart, None);
}

#[test]
fn a_request_without_a_body_has_the_length_zero_and_no_content_type() {
    let built = Request::new(route("https://discord.com/api/v10/gateway")).build("t", None).unwrap();
    assert_eq!(
        built.headers,
        vec![header("user-agent", USER_AGENT), header("authorization", "t"), header("content-length", "0")]
    );
    assert!(built.request_headers.is_empty());
    assert_eq!(built.body, None);
}

#[test]
fn a_request_with_files_leaves_the_length_to_the_upload() {
    let mut request = Request::new(route("https://discord.com/api/v10/channels/1/messages"));
    let files = Multipart {
        files: vec![CreateAttachment::bytes(vec![1], "a")],
        payload_json: Some("{}".to_string()),
    };
    request.multipart(Some(files.clone()));
    let built = request.build("t", None).unwrap();
    assert_eq!(built.headers, vec![header("user-agent", USER_AGENT), header("authorization", "t")]);
    assert_eq!(built.multipart, Some(files));
}

#[test]
fn a_proxy_takes_the_place_of_the_platforms_origin() {
    let mut request = Request::new(route("https://discord.com/api/v10/gateway"));
    request.route(route("https://discord.com/api/v10/users/@me"));
    let built = request.build("t", Some("http://localhost:8080/")).unwrap();
    assert_eq!(built.url, "http://localhost:8080/api/v10/users/@me");
}

#[test]
fn a_token_that_cannot_be_a_header_is_refused() {
    let request = Request::new(route("https://discord.com/api/v10/gateway"));
    assert!(matches!(request.clone().build("line\nbreak", None), Err(HttpError::InvalidHeader(_))));
    assert!(matches!(request.clone().build("del\u{7f}", None), Err(HttpError::InvalidHeader(_))));
    assert!(matches!(request.clone().build("nul\0", None), Err(HttpError::InvalidHeader(_))));
    assert!(request.clone().build("tab\tand space and é", None).is_ok());
    assert!(request.build("", None).is_ok());
}

#[test]
fn a_route_that_is_no_address_is_refused_before_the_token_is_looked_at() {
    let request = Request::new(route("/api/v10/gateway"));
    assert!(matches!(request.clone().build("t", None), Err(HttpError::Url(_))));
    assert!(matches!(request.build("line\nbreak", None), Err(HttpError::Url(_))));
}

#[test]
fn the_monitor_ends_its_run_on_whatever_it_receives() {
    let quiet = MonitorVerdict { shutdown_all: false, result: Ok(()) };
    assert_eq!(monitor_verdict(None), quiet);
    assert_eq!(monitor_verdict(Some(ShardManagerMessage::ShutdownInitiated)), quiet);
    assert_eq!(
        monitor_verdict(Some(ShardManagerMessage::ShardInvalidAuthentication)),
        MonitorVerdict { shutdown_all: true, result: Err(ShardManagerError::InvalidToken) }
    );
    assert_eq!(
        monitor_verdict(Some(ShardManagerMessage::ShardInvalidGatewayIntents)),
        MonitorVerdict { shutdown_all: true, result: Err(ShardManagerError::InvalidGatewayIntents) }
    );
    assert_eq!(
        monitor_verdict(Some(ShardManagerMessage::ShardDisallowedGatewayIntents)),
        MonitorVerdict { shutdown_all: true, result: Err(ShardManagerError::DisallowedGatewayIntents) }
    );
}

fn submitted(custom_id: &str, values: &[&str]) -> Submitted {
    Submitted {
        id: InteractionNumber(5),
        application_id: AppNumber(6),
        custom_id: custom_id.to_string(),
        inputs: values
            .iter()
            .enumerate()
            .map(|(place, value)| FilledInput {
                kind: Component::InputText,
                custom_id: place.to_string(),
                value: value.to_string(),
            })
            .collect(),
        guild_id: None,
        channel_id: RoomNumber(1),
        user: Person { id: UserNumber(3), name: "ann".to_string(), bot: false },
        token: "t".to_string(),
        message: None,
    }
}

#[test]
fn a_quick_modal_numbers_its_inputs_by_their_place() {
    let modal = CreateQuickModal::new("About you")
        .timeout(600_000)
        .short_field("Name")
        .paragraph_field("Story")
        .field(CreateInputText::new(InputTextStyle::Short, "Age", "ignored").required(true));
    assert_eq!(modal.title, "About you");
    assert_eq!(modal.timeout, Some(600_000));
    assert_eq!(modal.input_texts.len(), 3);
    assert_eq!(
        modal.rows(),
        vec![
            CreateActionRow::InputText(CreateInputText::new(InputTextStyle::Short, "Name", "0")),
            CreateActionRow::InputText(CreateInputText::new(InputTextStyle::Paragraph, "Story", "1")),
            CreateActionRow::InputText(
                CreateInputText::new(InputTextStyle::Short, "Age", "2").required(true)
            ),
        ]
    );
    assert!(CreateQuickModal::new("t").rows().is_empty());
    assert_eq!(CreateQuickModal::new("t").timeout, None);
}

#[test]
fn a_quick_modal_is_shown_as_the_answer_of_kind_nine() {
    let modal = CreateQuickModal::new("Title").short_field("Name");
    let text = |s: &str| JsonValue::String(s.to_string());
    let member = |k: &str, v: JsonValue| (k.to_string(), v);
    let expected = JsonValue::Object(vec![
        member("type", JsonValue::Number(9)),
        member(
            "data",
            JsonValue::Object(vec![
                member("custom_id", text("1234567890123")),
                member("title", text("Title")),
                member(
                    "components",
                    JsonValue::Array(vec![JsonValue::Object(vec![
                        member("type", JsonValue::Number(1)),
                        member(
                            "components",
                            JsonValue::Array(vec![JsonValue::Object(vec![
                                member("style", JsonValue::Number(1)),
                                member("label", text("Name")),
                                member("custom_id", text("0")),
                                member("type", JsonValue::Number(4)),
                            ])]),
                        ),
                    ])]),
                ),
            ]),
        ),
    ]);
    assert_eq!(modal.answer(InteractionNumber(1234567890123)), expected);
    assert_eq!(CreateQuickModal::modal_custom_id(InteractionNumber(1234567890123)), "1234567890123");
}

#[test]
fn the_answer_to_a_quick_modal_is_told_by_its_identifier_and_read_in_order() {
    let custom_id = CreateQuickModal::modal_custom_id(InteractionNumber(77));
    assert!(CreateQuickModal::is_answer(&custom_id, &submitted("77", &[])));
    assert!(!CreateQuickModal::is_answer(&custom_id, &submitted("78", &[])));
    assert!(!CreateQuickModal::is_answer(&custom_id, &submitted("", &[])));

    let handed_in = submitted("77", &["ann", "long story", ""]);
    let response = QuickModalResponse::new(handed_in.clone());
    assert_eq!(response.inputs, vec!["ann".to_string(), "long story".to_string(), String::new()]);
    assert_eq!(response.interaction, handed_in);
    assert!(QuickModalResponse::new(submitted("77", &[])).inputs.is_empty());
}
