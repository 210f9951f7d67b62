use std::collections::HashSet;

use event_dispatch::avatar::{AvatarSettings, AvatarSource};
use event_dispatch::events::{ClientEvent, MessageUserInternalData, Notified};
use event_dispatch::message::{
    ContentType, EmailAddressVisibility, FlavorCache, MessageFlavor, MessageRecipient,
    UserDisplayRecipient, WideMessage,
};
use event_dispatch::narrow::Operator;
use event_dispatch::fan_out::{process_message_event, MessageEvent};
use event_dispatch::notice::{
    cleanup_queue, enqueue_message_to_client, maybe_enqueue_notifications, process_notice,
    receiver_is_off_zulip, Event, EventKind, LegacyMessageUser, MessageUser, MessageUsers, Notice,
    NoticeError, NoticeUsers, OfflineNotice, Publication, UsersShape,
};
use event_dispatch::notification_data::{NotificationTrigger, UserMessageNotificationsData};
use event_dispatch::queues::{Client, ClientInfo, QueueId, Queues};
use event_dispatch::types::MessageFlags;

const GRAVATAR_URL: &str =
    "https://www.gravatar.com/avatar/4895b1d4ed83c6da448e89f72e1103a0?d=identicon&version=3";

fn settings() -> AvatarSettings {
    AvatarSettings {
        enable_gravatar: true,
        default_avatar_uri: "https://chat.example.com/static/default-avatar.png".to_string(),
        avatar_salt: "salt".to_string(),
    }
}

fn qid(id: &str) -> QueueId {
    QueueId::new(id.to_string())
}

fn set_of(ids: &[i32]) -> HashSet<i32> {
    let mut set = HashSet::new();
    for id in ids {
        set.insert(*id);
    }
    set
}

fn info(user: i32, realm: i32) -> ClientInfo {
    ClientInfo {
        user_profile_id: user,
        realm_id: realm,
        client_type_name: "website".to_string(),
        apply_markdown: true,
        client_gravatar: false,
        all_public_streams: false,
        narrow: vec![(Operator::Stream, "general".to_string())],
        event_types: None,
    }
}

fn wide_stream_message() -> WideMessage {
    WideMessage {
        attrs: vec![("timestamp".to_string(), "1700000000".to_string())],
        sender_email: "a@x".to_string(),
        sender_delivery_email: None,
        sender_id: 1,
        id: 100,
        client: "website".to_string(),
        sender_email_address_visibility: EmailAddressVisibility::Everyone,
        sender_realm_id: 7,
        sender_avatar_source: AvatarSource::Gravatar,
        sender_avatar_version: 3,
        rendered_content: "<p>hi</p>".to_string(),
        content: "hi".to_string(),
        recipient: MessageRecipient::Stream {
            display_recipient: "general".to_string(),
            subject: "t".to_string(),
        },
        recipient_type: 2,
        recipient_type_id: 11,
        sender_is_mirror_dummy: false,
    }
}

fn stream_event() -> MessageEvent {
    MessageEvent {
        sender_queue_id: None,
        stream_name: Some("general".to_string()),
        invite_only: false,
        realm_id: Some(7),
        local_id: None,
        presence_idle_user_ids: set_of(&[42]),
        online_push_user_ids: HashSet::new(),
        dm_mention_push_disabled_user_ids: HashSet::new(),
        dm_mention_email_disabled_user_ids: HashSet::new(),
        stream_push_user_ids: set_of(&[42]),
        stream_email_user_ids: HashSet::new(),
        topic_wildcard_mention_user_ids: HashSet::new(),
        stream_wildcard_mention_user_ids: HashSet::new(),
        followed_topic_push_user_ids: HashSet::new(),
        followed_topic_email_user_ids: HashSet::new(),
        topic_wildcard_mention_in_followed_topic_user_ids: HashSet::new(),
        stream_wildcard_mention_in_followed_topic_user_ids: HashSet::new(),
        muted_sender_user_ids: HashSet::new(),
        all_bot_user_ids: HashSet::new(),
        disable_external_notifications: false,
        message_dict: wide_stream_message(),
    }
}

fn private_event() -> MessageEvent {
    let mut event = stream_event();
    event.stream_name = None;
    event.realm_id = None;
    event.stream_push_user_ids = HashSet::new();
    event.message_dict.recipient = MessageRecipient::Private {
        display_recipient: vec![UserDisplayRecipient {
            email: "b@x".to_string(),
            full_name: "B".to_string(),
            id: 42,
            is_mirror_dummy: false,
        }],
    };
    event
}

fn user(id: i32, tags: &[&str]) -> MessageUser {
    MessageUser {
        id,
        flags: MessageFlags::from_tags(tags.iter().map(|t| t.to_string()).collect()),
        mentioned_user_group_id: None,
    }
}

fn users(list: Vec<MessageUser>) -> MessageUsers {
    MessageUsers::Users(list)
}

fn registry_with_q1() -> Queues {
    let mut queues = Queues::new();
    queues.insert(Client::new(qid("Q1"), info(42, 7), 0));
    queues
}

fn events_of<'a>(queues: &'a Queues, id: &str) -> &'a Vec<ClientEvent> {
    queues.get(&qid(id)).unwrap().events()
}

fn notice_for(user_id: i32, trigger: NotificationTrigger) -> OfflineNotice {
    OfflineNotice { user_profile_id: user_id, message_id: 100, trigger, mentioned_user_group_id: None }
}

#[test]
fn scenario_stream_message_to_a_subscribed_idle_user() {
    let mut queues = registry_with_q1();
    let outbox = process_notice(
        &mut queues,
        &settings(),
        Notice {
            event: Event::Message(stream_event()),
            users: NoticeUsers::Message(users(vec![user(42, &[])])),
        },
    )
    .unwrap();
    let events = events_of(&queues, "Q1");
    assert_eq!(events.len(), 1);
    match &events[0] {
        ClientEvent::Message { message, flags, internal_data, local_message_id } => {
            assert_eq!(message.content_type, ContentType::Html);
            assert_eq!(message.content, "<p>hi</p>");
            assert_eq!(message.rendered_content, None);
            assert_eq!(message.avatar_url, Some(GRAVATAR_URL.to_string()));
            assert_eq!(message.sender_email, "a@x");
            assert_eq!(message.sender_id, 1);
            assert_eq!(message.id, 100);
            assert_eq!(message.client, "website");
            assert!(!message.invite_only_stream);
            assert_eq!(
                message.attrs,
                vec![("timestamp".to_string(), "1700000000".to_string())]
            );
            assert_eq!(
                message.recipient,
                MessageRecipient::Stream {
                    display_recipient: "general".to_string(),
                    subject: "t".to_string()
                }
            );
            assert!(flags.is_empty());
            assert_eq!(*local_message_id, None);
            let data = internal_data.unwrap();
            assert!(data.user_notifications_data.stream_push_notify);
            assert_eq!(data.user_notifications_data.user_id, 42);
            assert_eq!(
                data.notified,
                Notified { push_notified: true, email_notified: false }
            );
            assert_eq!(data.mentioned_user_group_id, None);
        }
    }
    assert_eq!(
        outbox,
        vec![Publication::MobilePush(notice_for(42, NotificationTrigger::StreamPushNotify))]
    );
    assert_eq!(outbox[0].routing_key(), "missedmessage_mobile_notifications");
    assert_eq!(outbox[0].envelope_type(), Some("add"));
    assert_eq!(outbox[0].notice().trigger.as_str(), "stream_push_notify");
}

#[test]
fn scenario_bot_recipient_gets_the_event_and_no_notification() {
    let mut queues = registry_with_q1();
    let mut event = stream_event();
    event.all_bot_user_ids = set_of(&[42]);
    let outbox = process_notice(
        &mut queues,
        &settings(),
        Notice {
            event: Event::Message(event),
            users: NoticeUsers::Message(users(vec![user(42, &[])])),
        },
    )
    .unwrap();
    assert_eq!(events_of(&queues, "Q1").len(), 1);
    assert!(outbox.is_empty());
    match &events_of(&queues, "Q1")[0] {
        ClientEvent::Message { internal_data, .. } => {
            let data = internal_data.unwrap();
            assert!(!data.user_notifications_data.stream_push_notify);
            assert_eq!(data.notified, Notified::default());
        }
    }
}

#[test]
fn scenario_sender_gets_the_event_and_no_notification() {
    let mut queues = Queues::new();
    queues.insert(Client::new(qid("QS"), info(1, 7), 0));
    let mut event = stream_event();
    event.stream_push_user_ids = set_of(&[1]);
    event.presence_idle_user_ids = set_of(&[1]);
    event.sender_queue_id = Some(qid("QS"));
    event.local_id = Some("local-17".to_string());
    let outbox = process_notice(
        &mut queues,
        &settings(),
        Notice {
            event: Event::Message(event),
            users: NoticeUsers::Message(users(vec![user(1, &["read"])])),
        },
    )
    .unwrap();
    assert!(outbox.is_empty());
    let events = events_of(&queues, "QS");
    assert_eq!(events.len(), 1);
    match &events[0] {
        ClientEvent::Message { flags, local_message_id, .. } => {
            assert!(flags.contains("read"));
            assert_eq!(*local_message_id, Some("local-17".to_string()));
        }
    }
}

#[test]
fn local_id_goes_to_the_sending_queue_only() {
    let mut queues = Queues::new();
    queues.insert(Client::new(qid("QS"), info(1, 7), 0));
    queues.insert(Client::new(qid("QT"), info(1, 7), 0));
    let mut event = stream_event();
    event.sender_queue_id = Some(qid("QS"));
    event.local_id = Some("local-17".to_string());
    process_message_event(&mut queues, &settings(), event, users(vec![user(1, &[])]));
    match &events_of(&queues, "QS")[0] {
        ClientEvent::Message { local_message_id, .. } => {
            assert_eq!(*local_message_id, Some("local-17".to_string()))
        }
    }
    match &events_of(&queues, "QT")[0] {
        ClientEvent::Message { local_message_id, .. } => assert_eq!(*local_message_id, None),
    }
}

#[test]
fn scenario_mirror_loop_appends_nothing() {
    let mut queues = Queues::new();
    let mut mirror = info(42, 7);
    mirror.client_type_name = "zephyr_mirror_A".to_string();
    queues.insert(Client::new(qid("Q1"), mirror, 0));
    let mut other = info(42, 7);
    other.client_type_name = "website".to_string();
    queues.insert(Client::new(qid("Q2"), other, 0));
    let mut event = stream_event();
    event.message_dict.client = "zephyr_mirror_A".to_string();
    process_notice(
        &mut queues,
        &settings(),
        Notice {
            event: Event::Message(event),
            users: NoticeUsers::Message(users(vec![user(42, &[])])),
        },
    )
    .unwrap();
    assert!(events_of(&queues, "Q1").is_empty());
    assert_eq!(events_of(&queues, "Q2").len(), 1);
}

#[test]
fn mirror_loop_is_found_whatever_the_case() {
    let mut queues = Queues::new();
    let mut mirror = info(42, 7);
    mirror.client_type_name = "Zephyr_Mirror_A".to_string();
    queues.insert(Client::new(qid("Q1"), mirror, 0));
    let mut shouting = info(42, 7);
    shouting.client_type_name = "WEBSITE".to_string();
    queues.insert(Client::new(qid("Q2"), shouting, 0));
    let mut event = stream_event();
    event.message_dict.client = "zephyr_mirror_a".to_string();
    process_message_event(&mut queues, &settings(), event, users(vec![user(42, &[])]));
    assert!(events_of(&queues, "Q1").is_empty());
    // A client that is no mirror gets the message even from a sender of
    // the same name.
    let mut event = stream_event();
    event.message_dict.client = "website".to_string();
    process_message_event(&mut queues, &settings(), event, users(vec![user(42, &[])]));
    assert_eq!(events_of(&queues, "Q2").len(), 2);
}

#[test]
fn scenario_private_message_with_hidden_email() {
    let mut queues = Queues::new();
    let mut wants_gravatar = info(42, 7);
    wants_gravatar.client_gravatar = true;
    wants_gravatar.narrow = Vec::new();
    wants_gravatar.event_types = Some(vec!["presence".to_string()]);
    // The user has a queue, but none that takes messages: the user is away.
    queues.insert(Client::new(qid("QP"), wants_gravatar, 0));
    let mut reading = info(43, 7);
    reading.client_gravatar = true;
    reading.narrow = Vec::new();
    queues.insert(Client::new(qid("Q1"), reading, 0));

    let mut event = private_event();
    event.presence_idle_user_ids = HashSet::new();
    event.message_dict.sender_email_address_visibility = EmailAddressVisibility::Admins;
    event.dm_mention_push_disabled_user_ids = set_of(&[42, 43]);
    let outbox = process_notice(
        &mut queues,
        &settings(),
        Notice {
            event: Event::Message(event),
            users: NoticeUsers::Message(users(vec![user(42, &[]), user(43, &[])])),
        },
    )
    .unwrap();
    // 42 is away and gets the email; 43 is reading and gets none.
    assert_eq!(
        outbox,
        vec![Publication::Email(notice_for(42, NotificationTrigger::DirectMessage))]
    );
    assert_eq!(outbox[0].routing_key(), "missedmessage_emails");
    assert_eq!(outbox[0].envelope_type(), None);
    assert!(events_of(&queues, "QP").is_empty());
    match &events_of(&queues, "Q1")[0] {
        ClientEvent::Message { message, internal_data, .. } => {
            assert_eq!(message.avatar_url, Some(GRAVATAR_URL.to_string()));
            assert!(matches!(message.recipient, MessageRecipient::Private { .. }));
            assert_eq!(internal_data.unwrap().notified, Notified::default());
        }
    }
}

#[test]
fn client_gravatar_leaves_the_url_out_when_the_email_is_visible() {
    let mut queues = Queues::new();
    let mut wants_gravatar = info(42, 7);
    wants_gravatar.client_gravatar = true;
    wants_gravatar.apply_markdown = false;
    queues.insert(Client::new(qid("Q1"), wants_gravatar, 0));
    process_message_event(&mut queues, &settings(), stream_event(), users(vec![user(42, &[])]));
    match &events_of(&queues, "Q1")[0] {
        ClientEvent::Message { message, .. } => {
            assert_eq!(message.avatar_url, None);
            assert_eq!(message.content_type, ContentType::Markdown);
            assert_eq!(message.content, "hi");
        }
    }
}

#[test]
fn scenario_realm_wide_fan_out_of_a_public_stream_message() {
    let mut queues = registry_with_q1();
    let mut follower = info(99, 7);
    follower.all_public_streams = true;
    follower.narrow = Vec::new();
    queues.insert(Client::new(qid("Q2"), follower, 0));
    let mut elsewhere = info(98, 8);
    elsewhere.all_public_streams = true;
    elsewhere.narrow = Vec::new();
    queues.insert(Client::new(qid("Q3"), elsewhere, 0));
    let mut own = info(42, 7);
    own.all_public_streams = true;
    own.narrow = Vec::new();
    queues.insert(Client::new(qid("Q4"), own, 0));

    let outbox = process_notice(
        &mut queues,
        &settings(),
        Notice {
            event: Event::Message(stream_event()),
            users: NoticeUsers::Message(users(vec![user(42, &["mentioned"])])),
        },
    )
    .unwrap();
    assert_eq!(events_of(&queues, "Q1").len(), 1);
    assert_eq!(events_of(&queues, "Q2").len(), 1);
    assert!(events_of(&queues, "Q3").is_empty());
    // The queue of a user of the notice is served with the user, once.
    assert_eq!(events_of(&queues, "Q4").len(), 1);
    match &events_of(&queues, "Q2")[0] {
        ClientEvent::Message { flags, internal_data, message, .. } => {
            assert!(flags.is_empty());
            assert!(internal_data.is_none());
            assert_eq!(message.content, "<p>hi</p>");
        }
    }
    match &events_of(&queues, "Q4")[0] {
        ClientEvent::Message { flags, internal_data, .. } => {
            assert!(flags.contains("mentioned"));
            assert!(internal_data.is_some());
        }
    }
    assert_eq!(outbox.len(), 2);
    assert!(outbox.iter().all(|p| p.notice().user_profile_id == 42));
    assert_eq!(
        outbox,
        vec![
            Publication::MobilePush(notice_for(42, NotificationTrigger::Mentioned)),
            Publication::Email(notice_for(42, NotificationTrigger::Mentioned)),
        ]
    );
}

#[test]
fn private_or_invite_only_messages_do_not_reach_followers() {
    for variant in 0..3 {
        let mut queues = registry_with_q1();
        let mut follower = info(99, 7);
        follower.all_public_streams = true;
        follower.narrow = Vec::new();
        queues.insert(Client::new(qid("Q2"), follower, 0));
        let mut event = stream_event();
        match variant {
            0 => event.invite_only = true,
            1 => event.stream_name = None,
            _ => event.realm_id = None,
        }
        process_message_event(&mut queues, &settings(), event, users(vec![user(42, &[])]));
        assert_eq!(events_of(&queues, "Q1").len(), 1, "variant {}", variant);
        assert!(events_of(&queues, "Q2").is_empty(), "variant {}", variant);
    }
}

#[test]
fn queues_of_one_flavor_share_one_payload() {
    let mut queues = Queues::new();
    let mut mirror = info(42, 7);
    mirror.client_type_name = "some_mirror".to_string();
    queues.insert(Client::new(qid("Q1"), mirror, 0));
    queues.insert(Client::new(qid("Q2"), info(42, 7), 0));
    let mut markdown = info(43, 7);
    markdown.apply_markdown = false;
    queues.insert(Client::new(qid("Q3"), markdown, 0));
    let mut event = stream_event();
    event.invite_only = true;
    process_message_event(
        &mut queues,
        &settings(),
        event,
        users(vec![user(42, &[]), user(43, &[])]),
    );
    let payload = |id: &str| match &events_of(&queues, id)[0] {
        ClientEvent::Message { message, .. } => message.clone(),
    };
    let first = payload("Q1");
    let second = payload("Q2");
    let third = payload("Q3");
    assert!(std::sync::Arc::ptr_eq(&first, &second));
    assert_eq!(*first, *second);
    // The payload is the one written for the first queue of the flavor, a
    // mirroring client.
    assert!(first.invite_only_stream);
    assert_eq!(third.content_type, ContentType::Markdown);
    assert!(!third.invite_only_stream);
}

#[test]
fn a_queue_gets_one_event_per_notice() {
    let mut queues = registry_with_q1();
    let mut follower = info(42, 7);
    follower.all_public_streams = true;
    queues.insert(Client::new(qid("Q2"), follower, 0));
    process_message_event(
        &mut queues,
        &settings(),
        stream_event(),
        users(vec![user(42, &[]), user(43, &[])]),
    );
    assert_eq!(events_of(&queues, "Q1").len(), 1);
    assert_eq!(events_of(&queues, "Q2").len(), 1);
}

#[test]
fn a_user_named_twice_is_served_twice() {
    let mut queues = registry_with_q1();
    queues.insert(Client::new(qid("Q3"), info(43, 7), 0));
    let outbox = process_message_event(
        &mut queues,
        &settings(),
        stream_event(),
        users(vec![user(42, &[]), user(43, &[]), user(42, &["read"])]),
    );
    assert_eq!(events_of(&queues, "Q1").len(), 2);
    assert_eq!(outbox.len(), 2);
    // The queue of a user who is named once gets one event all the same.
    assert_eq!(events_of(&queues, "Q3").len(), 1);
}

#[test]
fn a_notice_delivered_again_is_processed_again() {
    let mut queues = registry_with_q1();
    let first = process_message_event(
        &mut queues,
        &settings(),
        stream_event(),
        users(vec![user(42, &[])]),
    );
    let second = process_message_event(
        &mut queues,
        &settings(),
        stream_event(),
        users(vec![user(42, &[])]),
    );
    assert_eq!(first, second);
    let events = events_of(&queues, "Q1");
    assert_eq!(events.len(), 2);
    match (&events[0], &events[1]) {
        (
            ClientEvent::Message { message: a, internal_data: da, .. },
            ClientEvent::Message { message: b, internal_data: db, .. },
        ) => {
            assert_eq!(**a, **b);
            assert_eq!(da, db);
        }
    }
}

#[test]
fn legacy_users_carry_their_settings_into_the_event() {
    let mut queues = registry_with_q1();
    queues.insert(Client::new(qid("Q3"), info(43, 7), 0));
    let mut event = stream_event();
    event.stream_push_user_ids = HashSet::new();
    event.presence_idle_user_ids = HashSet::new();
    let legacy = MessageUsers::LegacyUsers(vec![
        LegacyMessageUser {
            stream_push_notify: true,
            stream_email_notify: true,
            wildcard_mention_notify: false,
            sender_is_muted: false,
            online_push_enabled: false,
            always_push_notify: true,
            user: user(42, &[]),
        },
        LegacyMessageUser {
            stream_push_notify: true,
            stream_email_notify: false,
            wildcard_mention_notify: true,
            sender_is_muted: true,
            online_push_enabled: false,
            always_push_notify: false,
            user: user(43, &["wildcard_mentioned"]),
        },
    ]);
    let outbox = process_message_event(&mut queues, &settings(), event, legacy);
    // 42 reads, but has online push enabled under its older name.
    assert_eq!(
        outbox,
        vec![Publication::MobilePush(notice_for(42, NotificationTrigger::StreamPushNotify))]
    );
    match &events_of(&queues, "Q1")[0] {
        ClientEvent::Message { internal_data, .. } => {
            let data = internal_data.unwrap().user_notifications_data;
            assert!(data.online_push_enabled);
            assert!(data.stream_push_notify);
            assert!(data.stream_email_notify);
            assert!(!data.sender_is_muted);
        }
    }
    match &events_of(&queues, "Q3")[0] {
        ClientEvent::Message { internal_data, flags, .. } => {
            let data = internal_data.unwrap().user_notifications_data;
            assert!(flags.contains("wildcard_mentioned"));
            assert!(data.sender_is_muted);
            assert!(data.stream_wildcard_mention_push_notify);
            assert!(data.stream_wildcard_mention_email_notify);
            assert!(!data.online_push_enabled);
            assert!(!data.stream_email_notify);
        }
    }
}

#[test]
fn a_message_with_an_uploaded_avatar_carries_the_path_of_the_upload() {
    let mut queues = registry_with_q1();
    let mut wants_gravatar = info(43, 7);
    wants_gravatar.client_gravatar = true;
    queues.insert(Client::new(qid("Q2"), wants_gravatar, 0));
    let mut event = stream_event();
    event.message_dict.sender_avatar_source = AvatarSource::User;
    let outbox = process_notice(
        &mut queues,
        &settings(),
        Notice {
            event: Event::Message(event),
            users: NoticeUsers::Message(users(vec![user(42, &[]), user(43, &[])])),
        },
    )
    .unwrap();
    assert_eq!(
        outbox,
        vec![Publication::MobilePush(notice_for(42, NotificationTrigger::StreamPushNotify))]
    );
    // The sender is user 1 of realm 7; a client that computes Gravatar
    // itself still gets the URL of an upload.
    let upload = "/user_avatars/7/8665cb61965f9b5fa5accead42dd0ef47a3ef533.png?version=3";
    for id in ["Q1", "Q2"] {
        let events = events_of(&queues, id);
        assert_eq!(events.len(), 1);
        match &events[0] {
            ClientEvent::Message { message, .. } => {
                assert_eq!(message.avatar_url, Some(upload.to_string()));
                assert_eq!(message.content, "<p>hi</p>");
            }
        }
    }
}

#[test]
fn legacy_users_are_served_whatever_the_avatar_source() {
    let mut queues = registry_with_q1();
    let mut event = private_event();
    event.message_dict.sender_avatar_source = AvatarSource::User;
    let legacy = MessageUsers::LegacyUsers(vec![LegacyMessageUser {
        stream_push_notify: false,
        stream_email_notify: false,
        wildcard_mention_notify: false,
        sender_is_muted: false,
        online_push_enabled: false,
        always_push_notify: false,
        user: user(42, &[]),
    }]);
    let mut unnarrowed = info(42, 7);
    unnarrowed.narrow = Vec::new();
    queues.insert(Client::new(qid("Q3"), unnarrowed, 0));
    let outbox = process_message_event(&mut queues, &settings(), event, legacy);
    // The user is idle by presence: the direct message is pushed and mailed.
    assert_eq!(
        outbox,
        vec![
            Publication::MobilePush(notice_for(42, NotificationTrigger::DirectMessage)),
            Publication::Email(notice_for(42, NotificationTrigger::DirectMessage)),
        ]
    );
    assert!(events_of(&queues, "Q1").is_empty());
    assert_eq!(events_of(&queues, "Q3").len(), 1);
}

#[test]
fn users_in_the_wrong_shape_are_refused() {
    let mut queues = registry_with_q1();
    let refused = |queues: &mut Queues, event: Event, users: NoticeUsers| {
        process_notice(queues, &settings(), Notice { event, users })
    };
    assert_eq!(
        refused(&mut queues, Event::Message(stream_event()), NoticeUsers::Ids(vec![42])),
        Err(NoticeError::UsersShape)
    );
    assert_eq!(
        refused(&mut queues, Event::Presence, NoticeUsers::Single(42)),
        Err(NoticeError::UsersShape)
    );
    assert_eq!(
        refused(&mut queues, Event::CleanupQueue { queue_id: qid("Q1") }, NoticeUsers::Ids(vec![42])),
        Err(NoticeError::UsersShape)
    );
    assert_eq!(
        refused(&mut queues, Event::UpdateMessage, NoticeUsers::Ids(vec![42])),
        Err(NoticeError::UsersShape)
    );
    assert!(queues.contains(&qid("Q1")));
    assert!(events_of(&queues, "Q1").is_empty());
}

#[test]
fn other_events_change_nothing() {
    let mut queues = registry_with_q1();
    let accepted = |queues: &mut Queues, event: Event, users: NoticeUsers| {
        process_notice(queues, &settings(), Notice { event, users })
    };
    assert_eq!(accepted(&mut queues, Event::UpdateMessage, NoticeUsers::Unparsed), Ok(vec![]));
    assert_eq!(
        accepted(
            &mut queues,
            Event::DeleteMessage,
            NoticeUsers::DeleteMessage(event_dispatch::notice::DeleteMessageUsers::Ids(vec![42]))
        ),
        Ok(vec![])
    );
    assert_eq!(accepted(&mut queues, Event::Presence, NoticeUsers::Ids(vec![42])), Ok(vec![]));
    assert_eq!(
        accepted(&mut queues, Event::CustomProfileFields, NoticeUsers::Ids(vec![])),
        Ok(vec![])
    );
    assert_eq!(accepted(&mut queues, Event::Other, NoticeUsers::Ids(vec![1, 2])), Ok(vec![]));
    assert_eq!(queues.len(), 1);
    assert!(events_of(&queues, "Q1").is_empty());
}

#[test]
fn cleanup_queue_event_drops_the_queue() {
    let mut queues = registry_with_q1();
    let notice = || Notice {
        event: Event::CleanupQueue { queue_id: qid("Q1") },
        users: NoticeUsers::Single(42),
    };
    assert_eq!(process_notice(&mut queues, &settings(), notice()), Ok(vec![]));
    assert!(!queues.contains(&qid("Q1")));
    assert!(queues.for_user(42).is_none());
    assert_eq!(process_notice(&mut queues, &settings(), notice()), Ok(vec![]));
    assert_eq!(queues.len(), 0);
    queues.insert(Client::new(qid("Q5"), info(42, 7), 0));
    assert!(cleanup_queue(&mut queues, &qid("Q5")));
    assert!(!cleanup_queue(&mut queues, &qid("Q5")));
}

#[test]
fn event_kinds_and_the_shape_of_their_users() {
    assert_eq!(EventKind::from_tag("message"), EventKind::Message);
    assert_eq!(EventKind::from_tag("update_message"), EventKind::UpdateMessage);
    assert_eq!(EventKind::from_tag("delete_message"), EventKind::DeleteMessage);
    assert_eq!(EventKind::from_tag("presence"), EventKind::Presence);
    assert_eq!(EventKind::from_tag("custom_profile_fields"), EventKind::CustomProfileFields);
    assert_eq!(EventKind::from_tag("cleanup_queue"), EventKind::CleanupQueue);
    assert_eq!(EventKind::from_tag("typing"), EventKind::Other);
    assert_eq!(EventKind::from_tag("Message"), EventKind::Other);
    for kind in [
        EventKind::Message,
        EventKind::UpdateMessage,
        EventKind::DeleteMessage,
        EventKind::Presence,
        EventKind::CustomProfileFields,
        EventKind::CleanupQueue,
    ] {
        assert_eq!(EventKind::from_tag(kind.as_str().unwrap()), kind);
    }
    assert_eq!(EventKind::Other.as_str(), None);
    assert_eq!(EventKind::Message.users_shape(), UsersShape::MessageUsers);
    assert_eq!(EventKind::UpdateMessage.users_shape(), UsersShape::Unparsed);
    assert_eq!(EventKind::DeleteMessage.users_shape(), UsersShape::DeleteMessageUsers);
    assert_eq!(EventKind::Presence.users_shape(), UsersShape::UserIds);
    assert_eq!(EventKind::CustomProfileFields.users_shape(), UsersShape::UserIds);
    assert_eq!(EventKind::CleanupQueue.users_shape(), UsersShape::SingleUser);
    assert_eq!(EventKind::Other.users_shape(), UsersShape::UserIds);
    assert_eq!(Event::Presence.kind(), EventKind::Presence);
    assert_eq!(Event::Message(stream_event()).kind(), EventKind::Message);
    assert_eq!(NoticeUsers::Single(1).shape(), UsersShape::SingleUser);
}

#[test]
fn a_user_without_a_message_queue_is_off() {
    let mut queues = Queues::new();
    assert!(receiver_is_off_zulip(&queues, 42));
    let mut presence_only = info(42, 7);
    presence_only.event_types = Some(vec!["presence".to_string()]);
    queues.insert(Client::new(qid("QP"), presence_only, 0));
    assert!(receiver_is_off_zulip(&queues, 42));
    queues.insert(Client::new(qid("Q1"), info(42, 7), 0));
    assert!(!receiver_is_off_zulip(&queues, 42));
    assert!(receiver_is_off_zulip(&queues, 43));
}

#[test]
fn notifications_already_sent_are_not_sent_again() {
    let data = UserMessageNotificationsData {
        user_id: 42,
        online_push_enabled: false,
        dm_email_notify: true,
        dm_push_notify: true,
        mention_email_notify: false,
        mention_push_notify: false,
        topic_wildcard_mention_email_notify: false,
        topic_wildcard_mention_push_notify: false,
        stream_wildcard_mention_email_notify: false,
        stream_wildcard_mention_push_notify: false,
        stream_push_notify: false,
        stream_email_notify: false,
        followed_topic_push_notify: false,
        followed_topic_email_notify: false,
        topic_wildcard_mention_in_followed_topic_push_notify: false,
        topic_wildcard_mention_in_followed_topic_email_notify: false,
        stream_wildcard_mention_in_followed_topic_push_notify: false,
        stream_wildcard_mention_in_followed_topic_email_notify: false,
        sender_is_muted: false,
        disable_external_notifications: false,
    };
    let mut outbox = Vec::new();
    let notified = maybe_enqueue_notifications(
        &mut outbox,
        &data,
        1,
        100,
        Some(9),
        true,
        &Notified { push_notified: false, email_notified: false },
    );
    assert_eq!(notified, Notified { push_notified: true, email_notified: true });
    let notice = OfflineNotice {
        user_profile_id: 42,
        message_id: 100,
        trigger: NotificationTrigger::DirectMessage,
        mentioned_user_group_id: Some(9),
    };
    assert_eq!(outbox, vec![Publication::MobilePush(notice), Publication::Email(notice)]);

    let notified = maybe_enqueue_notifications(
        &mut outbox,
        &data,
        1,
        100,
        None,
        true,
        &Notified { push_notified: true, email_notified: false },
    );
    assert_eq!(notified, Notified { push_notified: false, email_notified: true });
    assert_eq!(outbox.len(), 3);
    let notified = maybe_enqueue_notifications(
        &mut outbox,
        &data,
        1,
        100,
        None,
        false,
        &Notified::default(),
    );
    assert_eq!(notified, Notified::default());
    assert_eq!(outbox.len(), 3);
}

#[test]
fn enqueue_to_one_client_guards_in_order() {
    let wide = wide_stream_message();
    let flags = MessageFlags::new();
    let s = settings();
    let internal = MessageUserInternalData {
        user_notifications_data: UserMessageNotificationsData::from_user_id_sets(
            42,
            &flags,
            &event_dispatch::notification_data::UserIdSets {
                private_message: false,
                disable_external_notifications: false,
                online_push_user_ids: HashSet::new(),
                dm_mention_push_disabled_user_ids: HashSet::new(),
                dm_mention_email_disabled_user_ids: HashSet::new(),
                stream_push_user_ids: HashSet::new(),
                stream_email_user_ids: HashSet::new(),
                topic_wildcard_mention_user_ids: HashSet::new(),
                stream_wildcard_mention_user_ids: HashSet::new(),
                followed_topic_push_user_ids: HashSet::new(),
                followed_topic_email_user_ids: HashSet::new(),
                topic_wildcard_mention_in_followed_topic_user_ids: HashSet::new(),
                stream_wildcard_mention_in_followed_topic_user_ids: HashSet::new(),
                muted_sender_user_ids: HashSet::new(),
                all_bot_user_ids: HashSet::new(),
            },
        ),
        mentioned_user_group_id: Some(3),
        notified: Notified::default(),
    };
    let local = "local-1".to_string();

    // A queue that takes no messages does not even fill the cache.
    let mut cache = FlavorCache::new();
    let mut presence_only = info(42, 7);
    presence_only.event_types = Some(vec!["presence".to_string()]);
    let mut client = Client::new(qid("QP"), presence_only, 0);
    enqueue_message_to_client(&wide, &mut cache, &mut client, &flags, true, None, false, None, &s);
    assert!(client.events().is_empty());
    let html = MessageFlavor { apply_markdown: true, client_gravatar: false };
    assert!(cache.get(&html).is_none());

    // A queue whose narrow does not match fills the cache and gets nothing.
    let mut elsewhere = info(42, 7);
    elsewhere.narrow = vec![(Operator::Stream, "other".to_string())];
    let mut client = Client::new(qid("QN"), elsewhere, 0);
    enqueue_message_to_client(&wide, &mut cache, &mut client, &flags, true, None, false, None, &s);
    assert!(client.events().is_empty());
    assert!(cache.get(&html).is_some());

    let mut client = Client::new(qid("Q1"), info(42, 7), 0);
    enqueue_message_to_client(
        &wide,
        &mut cache,
        &mut client,
        &flags,
        true,
        Some(&internal),
        true,
        Some(&local),
        &s,
    );
    assert_eq!(client.events().len(), 1);
    match &client.events()[0] {
        ClientEvent::Message { message, internal_data, local_message_id, .. } => {
            assert!(std::sync::Arc::ptr_eq(message, &cache.get(&html).unwrap()));
            assert!(!message.invite_only_stream);
            assert_eq!(*internal_data, Some(internal));
            assert_eq!(*local_message_id, Some("local-1".to_string()));
        }
    }
}

#[test]
fn payload_keeps_the_rendered_content_on_request() {
    let wide = wide_stream_message();
    let s = settings();
    let markdown = MessageFlavor { apply_markdown: false, client_gravatar: false };
    let message = wide.finalize_payload(&markdown, true, true, &s);
    assert_eq!(message.content_type, ContentType::Markdown);
    assert_eq!(message.content, "hi");
    assert_eq!(message.rendered_content, Some("<p>hi</p>".to_string()));
    assert!(message.invite_only_stream);
    let html = MessageFlavor { apply_markdown: true, client_gravatar: true };
    let message = wide.finalize_payload(&html, false, false, &s);
    assert_eq!(message.avatar_url, None);
    assert_eq!(message.rendered_content, None);
}

#[test]
fn delivery_email_is_used_for_the_avatar() {
    let mut wide = wide_stream_message();
    wide.sender_email = "user1@chat.example.com".to_string();
    wide.sender_delivery_email = Some("a@x".to_string());
    let s = settings();
    let html = MessageFlavor { apply_markdown: true, client_gravatar: false };
    let message = wide.finalize_payload(&html, false, false, &s);
    assert_eq!(message.avatar_url, Some(GRAVATAR_URL.to_string()));
    assert_eq!(message.sender_email, "user1@chat.example.com");
    let mut absent = wide_stream_message();
    absent.backfill_delivery_email();
    assert_eq!(absent.sender_delivery_email, Some("a@x".to_string()));
    wide.backfill_delivery_email();
    assert_eq!(wide.sender_delivery_email, Some("a@x".to_string()));
}
