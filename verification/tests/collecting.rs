use std::cell::RefCell;
use std::rc::Rc;

use event_dispatch::collector::kinds::{
    ComponentInteractionCollector,
    EventCollector,
    MessageCollector,
    ModalInteractionCollector,
    ReactionCollector,
};
use event_dispatch::collector::registry::{collect, Registry};
use event_dispatch::collector::stream::{CollectorStream, Polled};
use event_dispatch::model::application::component::{ComponentType, InputText};
use event_dispatch::model::application::interaction::message_component::{
    ComponentInteraction,
    ComponentInteractionData,
    ComponentInteractionDataKind,
};
use event_dispatch::model::application::interaction::modal::ModalSubmitInteraction;
use event_dispatch::model::application::interaction::Interaction;
use event_dispatch::model::channel::{Message as PostedMessage, Reaction, ReactionType};
use event_dispatch::model::event::{
    Event as GatewayEvent,
    InteractionCreateEvent,
    MessageCreateEvent as Posted,
    ReactionAddEvent,
    ReactionRemoveEvent,
};
use event_dispatch::model::id::{
    ApplicationId,
    ChannelId as Channel,
    GuildId as Guild,
    InteractionId,
    MessageId as MessageNumber,
    UserId as UserNumber,
};
use event_dispatch::model::user::User as Author;

fn reaction(channel: u64, message: u64, user: u64) -> Reaction {
    Reaction {
        channel_id: Channel(channel),
        message_id: MessageNumber(message),
        guild_id: Some(Guild(1)),
        user_id: Some(UserNumber(user)),
        emoji: ReactionType::Unicode("👍".to_string()),
    }
}

fn reaction_add(channel: u64, message: u64, user: u64) -> GatewayEvent {
    GatewayEvent::ReactionAdd(ReactionAddEvent { reaction: reaction(channel, message, user) })
}

fn posted(id: u64, channel: u64, author: u64) -> PostedMessage {
    PostedMessage {
        id: MessageNumber(id),
        channel_id: Channel(channel),
        guild_id: Some(Guild(1)),
        author: Author { id: UserNumber(author), name: "ann".to_string(), bot: false },
        content: "hi".to_string(),
    }
}

fn component(channel: u64, message: u64, user: u64) -> ComponentInteraction {
    ComponentInteraction {
        id: InteractionId(1),
        application_id: ApplicationId(2),
        data: ComponentInteractionData {
            custom_id: "menu".to_string(),
            kind: ComponentInteractionDataKind::StringSelect { values: vec!["a".to_string()] },
        },
        guild_id: None,
        channel_id: Channel(channel),
        member: None,
        user: Author { id: UserNumber(user), name: "ann".to_string(), bot: false },
        token: "t".to_string(),
        version: 1,
        message: Box::new(posted(message, channel, 9)),
        app_permissions: None,
        locale: "en".to_string(),
        guild_locale: None,
    }
}

fn modal(channel: u64, message: Option<u64>) -> ModalSubmitInteraction {
    ModalSubmitInteraction {
        id: InteractionId(1),
        application_id: ApplicationId(2),
        custom_id: "form".to_string(),
        inputs: vec![InputText {
            kind: ComponentType::InputText,
            custom_id: "name".to_string(),
            value: "ann".to_string(),
        }],
        guild_id: Some(Guild(1)),
        channel_id: Channel(channel),
        user: Author { id: UserNumber(3), name: "ann".to_string(), bot: false },
        token: "t".to_string(),
        message: message.map(|id| Box::new(posted(id, channel, 9))),
    }
}

fn drain<T>(stream: &mut CollectorStream<T>, now: u64) -> Vec<T> {
    let mut items = Vec::new();
    while let Polled::Item(item) = stream.poll_next(now) {
        items.push(item);
    }
    items
}

#[test]
fn a_reaction_collector_on_a_channel_yields_that_channels_reactions_in_order() {
    let collector = ReactionCollector::new().channel_id(Channel(42));
    let mut stream = collector.stream(0);
    let extractor = |event: &GatewayEvent| collector.extract(event);

    assert!(collect(&mut stream, &extractor, &reaction_add(42, 1, 5)));
    assert!(collect(&mut stream, &extractor, &reaction_add(7, 2, 5)));
    assert!(collect(&mut stream, &extractor, &reaction_add(42, 3, 5)));

    assert_eq!(stream.poll_next(0), Polled::Item(reaction(42, 1, 5)));
    assert_eq!(stream.poll_next(0), Polled::Item(reaction(42, 3, 5)));
    assert_eq!(stream.poll_next(0), Polled::Pending);
}

#[test]
fn of_n_events_the_k_that_pass_are_yielded_in_order_until_the_time_is_up() {
    let collector = ReactionCollector::new().author_id(UserNumber(5)).timeout(100);
    let mut stream = collector.stream(1_000);
    let wanted = |r: &Reaction| r.message_id.0 % 2 == 0;
    let extractor = |event: &GatewayEvent| collector.extract_if(event, &wanted);

    for message in 1..=10 {
        let author = if message <= 8 { 5 } else { 6 };
        assert!(collect(&mut stream, &extractor, &reaction_add(1, message, author)));
    }
    assert_eq!(stream.pending(), 4);

    let yielded = drain(&mut stream, 1_050);
    assert_eq!(
        yielded,
        vec![reaction(1, 2, 5), reaction(1, 4, 5), reaction(1, 6, 5), reaction(1, 8, 5)]
    );

    assert!(collect(&mut stream, &extractor, &reaction_add(1, 12, 5)));
    assert_eq!(stream.poll_next(1_099), Polled::Item(reaction(1, 12, 5)));

    assert!(collect(&mut stream, &extractor, &reaction_add(1, 14, 5)));
    assert_eq!(stream.poll_next(1_100), Polled::Ended);
    assert_eq!(stream.poll_next(1_050), Polled::Ended);
    assert!(collect(&mut stream, &extractor, &reaction_add(1, 16, 5)));
    assert_eq!(stream.poll_next(1_101), Polled::Ended);
}

#[test]
fn the_time_runs_from_registration_not_from_the_first_item() {
    let collector = MessageCollector::new().timeout(10);
    let mut stream = collector.stream(500);
    assert_eq!(stream.poll_next(509), Polled::Pending);
    let event = GatewayEvent::MessageCreate(Posted { message: posted(1, 2, 3) });
    assert!(collect(&mut stream, &|e: &GatewayEvent| collector.extract(e), &event));
    assert_eq!(stream.poll_next(510), Polled::Ended);
}

#[test]
fn a_stream_without_a_duration_never_ends_by_itself() {
    let collector = MessageCollector::new();
    let mut stream = collector.stream(0);
    assert_eq!(stream.poll_next(u64::MAX), Polled::Pending);
}

#[test]
fn a_duration_too_long_for_the_clock_lasts_to_its_end() {
    let mut stream: CollectorStream<u8> = CollectorStream::new(u64::MAX - 1, Some(10));
    assert_eq!(stream.poll_next(u64::MAX - 1), Polled::Pending);
    assert_eq!(stream.poll_next(u64::MAX), Polled::Ended);
}

#[test]
fn a_dropped_stream_makes_the_callback_ask_for_removal() {
    let collector = ReactionCollector::new();
    let mut stream = collector.stream(0);
    let extractor = |event: &GatewayEvent| collector.extract(event);
    stream.close();
    assert!(stream.is_closed());
    assert!(!collect(&mut stream, &extractor, &reaction_add(1, 1, 1)));
    assert_eq!(stream.pending(), 0);
    let other = GatewayEvent::ReactionRemove(ReactionRemoveEvent { reaction: reaction(1, 1, 1) });
    assert!(!collect(&mut stream, &extractor, &other));
}

#[test]
fn an_event_that_is_not_picked_keeps_an_open_collector_registered() {
    let collector = ReactionCollector::new();
    let mut stream = collector.stream(0);
    let other = GatewayEvent::ReactionRemove(ReactionRemoveEvent { reaction: reaction(1, 1, 1) });
    assert!(collect(&mut stream, &|e: &GatewayEvent| collector.extract(e), &other));
    assert_eq!(stream.pending(), 0);
}

#[test]
fn the_registry_drops_the_collectors_whose_streams_were_dropped() {
    let mut registry: Registry<Box<dyn Fn(&GatewayEvent) -> bool>> = Registry::new();
    for _ in 0..1000 {
        let collector = ReactionCollector::new();
        let stream = Rc::new(RefCell::new(collector.stream(0)));
        let shared = Rc::clone(&stream);
        registry.add_collector(Box::new(move |event| {
            shared.borrow_mut().forward(collector.extract(event))
        }));
        stream.borrow_mut().close();
    }
    assert_eq!(registry.len(), 1000);
    assert_eq!(registry.notify(&reaction_add(1, 1, 1)), 1000);
    assert_eq!(registry.len(), 0);
    assert_eq!(registry.notify(&reaction_add(1, 1, 1)), 0);
}

#[test]
fn the_registry_keeps_open_collectors_in_their_order() {
    let mut registry: Registry<Box<dyn Fn(&GatewayEvent) -> bool>> = Registry::new();
    let order = Rc::new(RefCell::new(Vec::new()));
    let mut streams = Vec::new();
    for n in 0..4u64 {
        let collector = ReactionCollector::new().channel_id(Channel(n));
        let stream = Rc::new(RefCell::new(collector.stream(0)));
        let shared = Rc::clone(&stream);
        let seen = Rc::clone(&order);
        registry.add_collector(Box::new(move |event| {
            seen.borrow_mut().push(n);
            shared.borrow_mut().forward(collector.extract(event))
        }));
        streams.push(stream);
    }
    streams[1].borrow_mut().close();

    assert_eq!(registry.notify(&reaction_add(2, 1, 1)), 1);
    assert_eq!(registry.len(), 3);
    assert_eq!(*order.borrow(), vec![0, 1, 2, 3]);
    assert_eq!(streams[2].borrow().pending(), 1);
    assert_eq!(streams[0].borrow().pending(), 0);

    order.borrow_mut().clear();
    assert_eq!(registry.notify(&reaction_add(3, 1, 1)), 0);
    assert_eq!(*order.borrow(), vec![0, 2, 3]);
}

#[test]
fn collect_single_takes_one_item_and_drops_the_stream() {
    let collector = MessageCollector::new().timeout(100);
    let mut stream = collector.stream(0);
    let extractor = |event: &GatewayEvent| collector.extract(event);
    assert_eq!(stream.poll_single(1), Polled::Pending);
    assert!(!stream.is_closed());
    let event = GatewayEvent::MessageCreate(Posted { message: posted(1, 2, 3) });
    assert!(collect(&mut stream, &extractor, &event));
    assert!(collect(&mut stream, &extractor, &event));
    assert_eq!(stream.poll_single(2), Polled::Item(posted(1, 2, 3)));
    assert!(stream.is_closed());
    assert!(!collect(&mut stream, &extractor, &event));
}

#[test]
fn collect_single_gives_nothing_when_the_time_is_up_first() {
    let collector = MessageCollector::new().timeout(100);
    let mut stream = collector.stream(0);
    assert_eq!(stream.poll_single(100), Polled::Ended);
    assert!(stream.is_closed());
}

#[test]
fn the_filters_of_a_collector_do_not_depend_on_their_order() {
    let one = ReactionCollector::new()
        .author_id(UserNumber(1))
        .channel_id(Channel(2))
        .guild_id(Guild(3))
        .message_id(MessageNumber(4))
        .timeout(5);
    let other = ReactionCollector::new()
        .timeout(5)
        .message_id(MessageNumber(4))
        .guild_id(Guild(3))
        .channel_id(Channel(2))
        .author_id(UserNumber(1));
    assert_eq!(one, other);
}

#[test]
fn every_filter_of_a_reaction_collector_must_pass() {
    let collector = ReactionCollector::new()
        .author_id(UserNumber(5))
        .channel_id(Channel(42))
        .guild_id(Guild(1))
        .message_id(MessageNumber(3));
    assert!(collector.check(&reaction(42, 3, 5)));
    assert!(!collector.check(&reaction(42, 3, 6)));
    assert!(!collector.check(&reaction(41, 3, 5)));
    assert!(!collector.check(&reaction(42, 4, 5)));
    let elsewhere = Reaction { guild_id: Some(Guild(2)), ..reaction(42, 3, 5) };
    assert!(!collector.check(&elsewhere));
    let nowhere = Reaction { guild_id: None, ..reaction(42, 3, 5) };
    assert!(!collector.check(&nowhere));
    let nobody = Reaction { user_id: None, ..reaction(42, 3, 5) };
    assert!(!collector.check(&nobody));
    assert!(ReactionCollector::new().check(&nobody));
}

#[test]
fn a_message_collector_picks_message_creates_only() {
    let collector = MessageCollector::new().author_id(UserNumber(3)).channel_id(Channel(2));
    let event = GatewayEvent::MessageCreate(Posted { message: posted(1, 2, 3) });
    assert_eq!(collector.extract(&event), Some(posted(1, 2, 3)));
    let other = GatewayEvent::MessageCreate(Posted { message: posted(1, 2, 4) });
    assert_eq!(collector.extract(&other), None);
    assert_eq!(collector.extract(&reaction_add(2, 1, 3)), None);
    assert_eq!(collector.extract_if(&event, &|m: &PostedMessage| m.content == "hi"), Some(posted(1, 2, 3)));
    assert_eq!(collector.extract_if(&event, &|m: &PostedMessage| m.content == "no"), None);
}

#[test]
fn a_component_collector_picks_component_interactions_only() {
    let collector = ComponentInteractionCollector::new()
        .author_id(UserNumber(3))
        .channel_id(Channel(2))
        .message_id(MessageNumber(8));
    let picked = GatewayEvent::InteractionCreate(InteractionCreateEvent {
        interaction: Interaction::Component(component(2, 8, 3)),
    });
    assert_eq!(collector.extract(&picked), Some(component(2, 8, 3)));
    let wrong_message = GatewayEvent::InteractionCreate(InteractionCreateEvent {
        interaction: Interaction::Component(component(2, 9, 3)),
    });
    assert_eq!(collector.extract(&wrong_message), None);
    let a_modal = GatewayEvent::InteractionCreate(InteractionCreateEvent {
        interaction: Interaction::ModalSubmit(modal(2, Some(8))),
    });
    assert_eq!(collector.extract(&a_modal), None);
    assert_eq!(collector.guild_id(Guild(1)).extract(&picked), None);
}

#[test]
fn a_modal_collector_filters_on_the_message_the_modal_came_from() {
    let collector = ModalInteractionCollector::new().message_id(MessageNumber(8));
    let with = GatewayEvent::InteractionCreate(InteractionCreateEvent {
        interaction: Interaction::ModalSubmit(modal(2, Some(8))),
    });
    let without = GatewayEvent::InteractionCreate(InteractionCreateEvent {
        interaction: Interaction::ModalSubmit(modal(2, None)),
    });
    assert_eq!(collector.extract(&with), Some(modal(2, Some(8))));
    assert_eq!(collector.extract(&without), None);
    assert_eq!(ModalInteractionCollector::new().extract(&without), Some(modal(2, None)));
    assert_eq!(
        collector.extract_if(&with, &|m: &ModalSubmitInteraction| m.custom_id == "other"),
        None
    );
}

#[test]
fn an_event_collector_picks_every_event() {
    let collector = EventCollector::new().timeout(3);
    assert_eq!(collector.duration, Some(3));
    assert_eq!(collector.extract(&GatewayEvent::Unknown), Some(GatewayEvent::Unknown));
    assert_eq!(collector.extract(&reaction_add(1, 2, 3)), Some(reaction_add(1, 2, 3)));
    let reactions_only = |event: &GatewayEvent| matches!(event, GatewayEvent::ReactionAdd(_));
    assert_eq!(collector.extract_if(&GatewayEvent::Unknown, &reactions_only), None);
    assert_eq!(
        collector.extract_if(&reaction_add(1, 2, 3), &reactions_only),
        Some(reaction_add(1, 2, 3))
    );
}
