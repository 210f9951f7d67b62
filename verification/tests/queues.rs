use std::sync::Arc;

use event_dispatch::avatar::AvatarSource;
use event_dispatch::events::ClientEvent;
use event_dispatch::message::{
    ContentType, EmailAddressVisibility, Message, MessageRecipient, UserDisplayRecipient,
};
use event_dispatch::narrow::{matches_narrow, Operator};
use event_dispatch::queues::{Client, ClientInfo, QueueId, Queues, UnknownQueue};
use event_dispatch::types::MessageFlags;

fn qid(id: &str) -> QueueId {
    QueueId::new(id.to_string())
}

fn info(user: i32, realm: i32, all_public_streams: bool) -> ClientInfo {
    ClientInfo {
        user_profile_id: user,
        realm_id: realm,
        client_type_name: "website".to_string(),
        apply_markdown: true,
        client_gravatar: false,
        all_public_streams,
        narrow: Vec::new(),
        event_types: None,
    }
}

fn client(id: &str, user: i32, realm: i32, all_public_streams: bool) -> Client {
    Client::new(qid(id), info(user, realm, all_public_streams), 1000)
}

fn stream_message(stream: &str, topic: &str, sender_email: &str) -> Message {
    Message {
        attrs: Vec::new(),
        sender_email: sender_email.to_string(),
        sender_id: 1,
        id: 100,
        client: "website".to_string(),
        avatar_url: None,
        content_type: ContentType::Html,
        rendered_content: None,
        content: "<p>hi</p>".to_string(),
        recipient: MessageRecipient::Stream {
            display_recipient: stream.to_string(),
            subject: topic.to_string(),
        },
        invite_only_stream: false,
    }
}

fn private_message() -> Message {
    let mut message = stream_message("x", "y", "a@x");
    message.recipient = MessageRecipient::Private {
        display_recipient: vec![UserDisplayRecipient {
            email: "b@x".to_string(),
            full_name: "B".to_string(),
            id: 42,
            is_mirror_dummy: false,
        }],
    };
    message
}

fn flags_of(tags: &[&str]) -> MessageFlags {
    MessageFlags::from_tags(tags.iter().map(|t| t.to_string()).collect())
}

fn event_of(message: Message) -> ClientEvent {
    ClientEvent::Message {
        message: Arc::new(message),
        flags: MessageFlags::new(),
        internal_data: None,
        local_message_id: None,
    }
}

fn ids(list: Option<&Vec<QueueId>>) -> Vec<String> {
    match list {
        Some(list) => list.iter().map(|q| q.as_str().to_string()).collect(),
        None => Vec::new(),
    }
}

#[test]
fn new_registry_is_empty() {
    let queues = Queues::new();
    assert_eq!(queues.len(), 0);
    assert!(!queues.contains(&qid("q1")));
    assert!(matches!(queues.get(&qid("q1")), Err(UnknownQueue)));
    assert!(queues.for_user(42).is_none());
    assert!(queues.for_realm_all_streams(7).is_none());
}

#[test]
fn insert_adds_to_every_index() {
    let mut queues = Queues::new();
    queues.insert(client("q1", 42, 7, false));
    queues.insert(client("q2", 42, 7, true));
    queues.insert(client("q3", 99, 7, true));
    queues.insert(client("q4", 5, 8, true));
    assert_eq!(queues.len(), 4);
    assert_eq!(ids(queues.for_user(42)), vec!["q1", "q2"]);
    assert_eq!(ids(queues.for_user(99)), vec!["q3"]);
    assert_eq!(ids(queues.for_realm_all_streams(7)), vec!["q2", "q3"]);
    assert_eq!(ids(queues.for_realm_all_streams(8)), vec!["q4"]);
    assert!(queues.for_realm_all_streams(9).is_none());
    let found = queues.get(&qid("q2")).unwrap();
    assert_eq!(found.queue_id().as_str(), "q2");
    assert_eq!(found.info().user_profile_id, 42);
    assert!(found.info().all_public_streams);
    assert_eq!(found.last_connection_time(), 1000);
    assert!(found.events().is_empty());
}

#[test]
fn every_secondary_entry_has_a_primary_entry() {
    let mut queues = Queues::new();
    queues.insert(client("q1", 42, 7, true));
    queues.insert(client("q2", 42, 7, false));
    queues.insert(client("q3", 99, 8, true));
    queues.remove(&qid("q2"));
    queues.insert(client("q5", 99, 7, true));
    for user in [42, 99] {
        for id in ids(queues.for_user(user)) {
            let found = queues.get(&qid(&id)).unwrap();
            assert_eq!(found.info().user_profile_id, user);
        }
    }
    for realm in [7, 8] {
        for id in ids(queues.for_realm_all_streams(realm)) {
            let found = queues.get(&qid(&id)).unwrap();
            assert_eq!(found.info().realm_id, realm);
            assert!(found.info().all_public_streams);
        }
    }
}

#[test]
fn remove_takes_the_queue_out_of_every_index() {
    let mut queues = Queues::new();
    queues.insert(client("q1", 42, 7, true));
    queues.insert(client("q2", 42, 7, true));
    let removed = queues.remove(&qid("q1")).unwrap();
    assert_eq!(removed.queue_id().as_str(), "q1");
    assert_eq!(queues.len(), 1);
    assert!(!queues.contains(&qid("q1")));
    assert_eq!(ids(queues.for_user(42)), vec!["q2"]);
    assert_eq!(ids(queues.for_realm_all_streams(7)), vec!["q2"]);
    queues.remove(&qid("q2"));
    assert!(queues.for_user(42).is_none());
    assert!(queues.for_realm_all_streams(7).is_none());
    assert_eq!(queues.len(), 0);
}

#[test]
fn cleanup_is_idempotent() {
    let mut queues = Queues::new();
    queues.insert(client("q1", 42, 7, true));
    queues.insert(client("q2", 43, 7, false));
    assert!(queues.remove(&qid("q1")).is_some());
    assert!(queues.remove(&qid("q1")).is_none());
    assert!(queues.remove(&qid("q1")).is_none());
    assert_eq!(queues.len(), 1);
    assert_eq!(ids(queues.for_user(43)), vec!["q2"]);
    assert!(queues.for_user(42).is_none());
    assert!(queues.remove(&qid("never")).is_none());
    assert_eq!(queues.len(), 1);
}

#[test]
fn insert_replaces_a_queue_of_the_same_id() {
    let mut queues = Queues::new();
    queues.insert(client("q1", 42, 7, true));
    queues.insert(client("q1", 43, 8, false));
    assert_eq!(queues.len(), 1);
    assert!(queues.for_user(42).is_none());
    assert!(queues.for_realm_all_streams(7).is_none());
    assert_eq!(ids(queues.for_user(43)), vec!["q1"]);
    assert_eq!(queues.get(&qid("q1")).unwrap().info().realm_id, 8);
}

#[test]
fn slots_are_used_again() {
    let mut queues = Queues::new();
    for round in 0..5 {
        queues.insert(client("a", 1, 1, false));
        queues.insert(client("b", 2, 1, true));
        assert_eq!(queues.len(), 2, "round {}", round);
        queues.remove(&qid("a"));
        queues.remove(&qid("b"));
        assert_eq!(queues.len(), 0);
    }
    queues.insert(client("c", 3, 1, false));
    assert_eq!(queues.get(&qid("c")).unwrap().info().user_profile_id, 3);
}

#[test]
fn append_adds_events_in_order() {
    let mut queues = Queues::new();
    queues.insert(client("q1", 42, 7, false));
    assert_eq!(queues.append(&qid("q1"), event_of(stream_message("a", "t", "a@x"))), Ok(()));
    assert_eq!(queues.append(&qid("q1"), event_of(private_message())), Ok(()));
    assert_eq!(
        queues.append(&qid("q9"), event_of(private_message())),
        Err(UnknownQueue)
    );
    let events = queues.get(&qid("q1")).unwrap().events();
    assert_eq!(events.len(), 2);
    match &events[0] {
        ClientEvent::Message { message, .. } => {
            assert!(matches!(message.recipient, MessageRecipient::Stream { .. }))
        }
    }
    match &events[1] {
        ClientEvent::Message { message, .. } => {
            assert!(matches!(message.recipient, MessageRecipient::Private { .. }))
        }
    }
}

#[test]
fn get_mut_changes_the_queue_in_place() {
    let mut queues = Queues::new();
    queues.insert(client("q1", 42, 7, false));
    {
        let found = queues.get_mut(&qid("q1")).unwrap();
        found.add_event(event_of(private_message()));
        found.touch(2000);
    }
    assert!(queues.get_mut(&qid("nope")).is_err());
    let found = queues.get(&qid("q1")).unwrap();
    assert_eq!(found.events().len(), 1);
    assert_eq!(found.last_connection_time(), 2000);
    assert_eq!(queues.touch(&qid("q1"), 3000), Ok(()));
    assert_eq!(queues.touch(&qid("nope"), 3000), Err(UnknownQueue));
    assert_eq!(queues.get(&qid("q1")).unwrap().last_connection_time(), 3000);
    let taken = queues.get_mut(&qid("q1")).unwrap().take_events();
    assert_eq!(taken.len(), 1);
    assert!(queues.get(&qid("q1")).unwrap().events().is_empty());
}

#[test]
fn a_queue_can_opt_out_of_messages() {
    let mut presence_only = info(42, 7, false);
    presence_only.event_types = Some(vec!["presence".to_string()]);
    let c = Client::new(qid("q1"), presence_only, 0);
    assert!(!c.accepts_messages());
    assert!(!c.accepts_event(&event_of(private_message())));

    let mut with_messages = info(42, 7, false);
    with_messages.event_types = Some(vec!["presence".to_string(), "message".to_string()]);
    let c = Client::new(qid("q2"), with_messages, 0);
    assert!(c.accepts_messages());
    assert!(c.accepts_event(&event_of(private_message())));

    let c = client("q3", 42, 7, false);
    assert!(c.accepts_messages());
}

#[test]
fn a_queue_accepts_only_what_its_narrow_matches() {
    let mut narrowed = info(42, 7, false);
    narrowed.narrow = vec![(Operator::Stream, "General".to_string())];
    let c = Client::new(qid("q1"), narrowed, 0);
    assert!(c.accepts_event(&event_of(stream_message("general", "t", "a@x"))));
    assert!(!c.accepts_event(&event_of(stream_message("other", "t", "a@x"))));
    assert!(!c.accepts_event(&event_of(private_message())));
}

#[test]
fn narrow_terms_by_operator() {
    let message = stream_message("General", "Lunch", "Alice@Example.com");
    let none = MessageFlags::new();
    let yes = |op: Operator, operand: &str| {
        matches_narrow(&message, &none, &vec![(op, operand.to_string())])
    };
    assert!(yes(Operator::Stream, "general"));
    assert!(yes(Operator::Stream, "GENERAL"));
    assert!(!yes(Operator::Stream, "genera"));
    assert!(yes(Operator::Topic, "lunch"));
    assert!(!yes(Operator::Topic, "dinner"));
    assert!(yes(Operator::Sender, "alice@example.com"));
    assert!(!yes(Operator::Sender, "bob@example.com"));
    assert!(!yes(Operator::Is, "dm"));
    assert!(!yes(Operator::Is, "private"));
    assert!(yes(Operator::Is, "unread"));
    assert!(!yes(Operator::Is, "starred"));
    assert!(!yes(Operator::Is, "mentioned"));
    assert!(!yes(Operator::Is, "alerted"));
    assert!(!yes(Operator::Is, "resolved"));
    assert!(yes(Operator::Is, "something-else"));
    assert!(matches_narrow(&message, &none, &Vec::new()));
    assert!(!matches_narrow(
        &message,
        &none,
        &vec![
            (Operator::Stream, "general".to_string()),
            (Operator::Topic, "dinner".to_string())
        ]
    ));
}

#[test]
fn narrow_is_terms_read_the_flags_and_the_recipient() {
    let dm = private_message();
    let flags = flags_of(&["read", "starred", "mentioned"]);
    let yes = |message: &Message, operand: &str| {
        matches_narrow(message, &flags, &vec![(Operator::Is, operand.to_string())])
    };
    assert!(yes(&dm, "dm"));
    assert!(yes(&dm, "private"));
    assert!(yes(&dm, "starred"));
    assert!(!yes(&dm, "unread"));
    assert!(yes(&dm, "mentioned"));
    assert!(yes(&dm, "alerted"));
    assert!(!yes(&dm, "resolved"));
    let resolved = stream_message("general", "\u{2714} fixed", "a@x");
    assert!(yes(&resolved, "resolved"));
    let unresolved = stream_message("general", "fixed \u{2714} ", "a@x");
    assert!(!yes(&unresolved, "resolved"));
    assert!(!matches_narrow(
        &dm,
        &flags,
        &vec![(Operator::Stream, "x".to_string())]
    ));
    assert!(!matches_narrow(
        &dm,
        &flags,
        &vec![(Operator::Topic, "y".to_string())]
    ));
}

#[test]
fn visibility_and_content_type_codes() {
    assert_eq!(EmailAddressVisibility::Everyone.to_code(), 1);
    assert_eq!(EmailAddressVisibility::Members.to_code(), 2);
    assert_eq!(EmailAddressVisibility::Admins.to_code(), 3);
    assert_eq!(EmailAddressVisibility::Nobody.to_code(), 4);
    assert_eq!(EmailAddressVisibility::Moderators.to_code(), 5);
    for code in 1u8..=5 {
        assert_eq!(EmailAddressVisibility::from_code(code).unwrap().to_code(), code);
    }
    assert_eq!(EmailAddressVisibility::from_code(0), None);
    assert_eq!(EmailAddressVisibility::from_code(6), None);
    assert_eq!(ContentType::Html.as_str(), "text/html");
    assert_eq!(ContentType::Markdown.as_str(), "text/x-markdown");
    assert_eq!(AvatarSource::Gravatar.as_str(), "G");
}
