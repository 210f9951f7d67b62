//! The dispatcher: what a notice does to the queues, and which offline
//! notifications it asks for.

use std::sync::Arc;
use vstd::prelude::*;

use crate::avatar::AvatarSettings;
use crate::events::{ClientEvent, ClientEventView, MessageUserInternalData, Notified};
use crate::message::{FlavorCache, Message, MessageFlavor, MessageView, WideMessage};
use crate::fan_out::{after_fan_out, fan_out, process_message_event, MessageEvent};
use crate::notification_data::{NotificationTrigger, UserMessageNotificationsData};
use crate::queues::{
    ids_view, info_accepts_event, info_accepts_messages, Client, ClientInfo, QueueId, Queues,
    QueuesView,
};
use crate::text::{eq_ignore_case, is_substring, lowercase, str_contains, str_eq};
use crate::types::{MessageFlags, MessageId, UserGroupId, UserId};

verus! {

broadcast use vstd::std_specs::hash::group_hash_axioms;

/// One of the users that a message event is for.
#[derive(Debug)]
pub struct MessageUser {
    pub id: UserId,
    /// The flags of the message for this user; none where absent.
    pub flags: MessageFlags,
    pub mentioned_user_group_id: Option<UserId>,
}

/// A user of a message event in the shape that old servers send, with the
/// user's notification settings on the record itself.
#[derive(Debug)]
pub struct LegacyMessageUser {
    pub stream_push_notify: bool,
    pub stream_email_notify: bool,
    pub wildcard_mention_notify: bool,
    pub sender_is_muted: bool,
    pub online_push_enabled: bool,
    /// The older name of `online_push_enabled`.
    pub always_push_notify: bool,
    pub user: MessageUser,
}

/// The users of a message event, in either shape.
#[derive(Debug)]
pub enum MessageUsers {
    Users(Vec<MessageUser>),
    LegacyUsers(Vec<LegacyMessageUser>),
}

/// What is told of a message that a user has missed.
#[derive(Clone, Copy, Debug, PartialEq, Eq, Structural)]
pub struct OfflineNotice {
    pub user_profile_id: UserId,
    pub message_id: MessageId,
    pub trigger: NotificationTrigger,
    pub mentioned_user_group_id: Option<UserGroupId>,
}

/// An envelope to publish: a notice, and the downstream queue it is for.
#[derive(Clone, Copy, Debug, PartialEq, Eq, Structural)]
pub enum Publication {
    /// For the queue of mobile push notifications; written with the type
    /// `add`.
    MobilePush(OfflineNotice),
    /// For the queue of missed-message emails; written without a type.
    Email(OfflineNotice),
}

impl Publication {
    /// The name of the downstream queue, which is the routing key.
    pub open spec fn queue_name(self) -> Seq<char> {
        match self {
            Publication::MobilePush(_) => "missedmessage_mobile_notifications"@,
            Publication::Email(_) => "missedmessage_emails"@,
        }
    }

    /// The name of the downstream queue, which is the routing key.
    pub fn routing_key(&self) -> (r: &'static str)
        ensures
            r@ == self.queue_name(),
    {
        match self {
            Publication::MobilePush(_) => "missedmessage_mobile_notifications",
            Publication::Email(_) => "missedmessage_emails",
        }
    }

    /// The type under which the envelope is written, if it has one.
    pub fn envelope_type(&self) -> (r: Option<&'static str>)
        ensures
            match self {
                Publication::MobilePush(_) => r is Some && r->0@ == "add"@,
                Publication::Email(_) => r is None,
            },
    {
        match self {
            Publication::MobilePush(_) => Some("add"),
            Publication::Email(_) => None,
        }
    }

    /// The notice in the envelope.
    pub fn notice(&self) -> (r: OfflineNotice)
        ensures
            r == match self {
                Publication::MobilePush(notice) => *notice,
                Publication::Email(notice) => *notice,
            },
    {
        match self {
            Publication::MobilePush(notice) => *notice,
            Publication::Email(notice) => *notice,
        }
    }
}

/// Which notifications are sent by `maybe_enqueue_notifications`: each kind
/// that was not sent before and has a trigger.
pub open spec fn notified_after(
    data: UserMessageNotificationsData,
    acting_user_id: UserId,
    idle: bool,
    already_notified: Notified,
) -> Notified {
    Notified {
        push_notified: !already_notified.push_notified && data.push_trigger(acting_user_id, idle)
            is Some,
        email_notified: !already_notified.email_notified && data.email_trigger(
            acting_user_id,
            idle,
        ) is Some,
    }
}

/// The envelopes that `maybe_enqueue_notifications` asks to publish: the
/// push envelope, then the email envelope, each where its kind is sent.
pub open spec fn publications(
    data: UserMessageNotificationsData,
    acting_user_id: UserId,
    message_id: MessageId,
    mentioned_user_group_id: Option<UserGroupId>,
    idle: bool,
    already_notified: Notified,
) -> Seq<Publication> {
    let sent = notified_after(data, acting_user_id, idle, already_notified);
    let push = if sent.push_notified {
        seq![
            Publication::MobilePush(
                OfflineNotice {
                    user_profile_id: data.user_id,
                    message_id,
                    trigger: data.push_trigger(acting_user_id, idle)->0,
                    mentioned_user_group_id,
                },
            ),
        ]
    } else {
        Seq::empty()
    };
    let email = if sent.email_notified {
        seq![
            Publication::Email(
                OfflineNotice {
                    user_profile_id: data.user_id,
                    message_id,
                    trigger: data.email_trigger(acting_user_id, idle)->0,
                    mentioned_user_group_id,
                },
            ),
        ]
    } else {
        Seq::empty()
    };
    push + email
}

/// Asks for the offline notifications that are owed to a user for a
/// message: the envelopes are added to `outbox`, and the result says which
/// kinds were sent.
pub fn maybe_enqueue_notifications(
    outbox: &mut Vec<Publication>,
    user_notifications_data: &UserMessageNotificationsData,
    acting_user_id: UserId,
    message_id: MessageId,
    mentioned_user_group_id: Option<UserGroupId>,
    idle: bool,
    already_notified: &Notified,
) -> (notified: Notified)
    ensures
        notified == notified_after(
            *user_notifications_data,
            acting_user_id,
            idle,
            *already_notified,
        ),
        final(outbox)@ == old(outbox)@ + publications(
            *user_notifications_data,
            acting_user_id,
            message_id,
            mentioned_user_group_id,
            idle,
            *already_notified,
        ),
{
    let mut notified = Notified::default();

    if !already_notified.push_notified {
        if let Some(trigger) = user_notifications_data.get_push_notification_trigger(
            acting_user_id,
            idle,
        ) {
            outbox.push(
                Publication::MobilePush(
                    OfflineNotice {
                        user_profile_id: user_notifications_data.user_id,
                        message_id,
                        trigger,
                        mentioned_user_group_id,
                    },
                ),
            );
            notified.push_notified = true;
        }
    }
    // Emails go out for the same reasons as push notifications, but only to
    // a user who is idle.

    if !already_notified.email_notified {
        if let Some(trigger) = user_notifications_data.get_email_notification_trigger(
            acting_user_id,
            idle,
        ) {
            outbox.push(
                Publication::Email(
                    OfflineNotice {
                        user_profile_id: user_notifications_data.user_id,
                        message_id,
                        trigger,
                        mentioned_user_group_id,
                    },
                ),
            );
            notified.email_notified = true;
        }
    }
    assert(outbox@ =~= old(outbox)@ + publications(
        *user_notifications_data,
        acting_user_id,
        message_id,
        mentioned_user_group_id,
        idle,
        *already_notified,
    ));
    notified
}

/// Whether the queue at position `at` of the queues of `user_id` takes
/// message events.
pub open spec fn takes_messages_at(view: QueuesView, user_id: UserId, at: int) -> bool {
    let id = view.by_user[user_id as int][at];
    view.infos.contains_key(id) && info_accepts_messages(view.infos[id])
}

/// Whether a user is away: the user has no queue that takes message events.
/// A user whose queues all take other events only is away.
pub open spec fn off_zulip(view: QueuesView, user_id: UserId) -> bool {
    !(view.by_user.contains_key(user_id as int) && exists|at: int|
        0 <= at < view.by_user[user_id as int].len() && takes_messages_at(view, user_id, at))
}

/// Whether `user_id` has no queue that takes message events.
pub fn receiver_is_off_zulip(queues: &Queues, user_id: UserId) -> (r: bool)
    requires
        queues.wf(),
    ensures
        r == off_zulip(queues@, user_id),
{
    match queues.for_user(user_id) {
        Some(ids) => {
            let mut i: usize = 0;
            while i < ids.len()
                invariant
                    i <= ids.len(),
                    queues.wf(),
                    queues@.by_user.contains_key(user_id as int),
                    crate::queues::ids_view(ids@) == queues@.by_user[user_id as int],
                    forall|at: int| 0 <= at < i ==> !takes_messages_at(queues@, user_id, at),
                decreases ids.len() - i,
            {
                assert(crate::queues::ids_view(ids@)[i as int] == ids@[i as int]@);
                match queues.get(&ids[i]) {
                    Ok(client) => {
                        if client.accepts_messages() {
                            assert(takes_messages_at(queues@, user_id, i as int));
                            return false;
                        }
                    },
                    Err(_) => {},
                }
                i += 1;
            }
            true
        },
        None => true,
    }
}

/// The flavor in which a client wants its messages.
pub open spec fn flavor_of(info: ClientInfo) -> MessageFlavor {
    MessageFlavor { apply_markdown: info.apply_markdown, client_gravatar: info.client_gravatar }
}

/// Whether a payload written for this client says that the stream is
/// invite-only: only a mirroring client is told so, that it may know not
/// to publish the message again.
pub open spec fn invite_only_stream_for(info: ClientInfo, invite_only: bool) -> bool {
    is_substring("mirror"@, info.client_type_name@) && invite_only
}

/// Whether the message came from this very kind of mirroring client, so
/// that handing it back would close a loop.
pub open spec fn mirror_loop(sending_client: Seq<char>, info: ClientInfo) -> bool {
    is_substring("mirror"@, sending_client) && lowercase(sending_client) == lowercase(
        info.client_type_name@,
    )
}

/// The payload that a client gets: the one that the fan-out has already
/// written for the client's flavor, or else the one written now.
pub open spec fn payload_for(
    cache: Map<MessageFlavor, MessageView>,
    wide: &WideMessage,
    info: ClientInfo,
    invite_only: bool,
    settings: &AvatarSettings,
) -> MessageView {
    if cache.contains_key(flavor_of(info)) {
        cache[flavor_of(info)]
    } else {
        wide.payload(flavor_of(info), false, invite_only_stream_for(info, invite_only), settings)
    }
}

/// The cache once a client has been served: unchanged by a client that
/// takes no messages, and else holding the client's payload under the
/// client's flavor.
pub open spec fn cache_after(
    cache: Map<MessageFlavor, MessageView>,
    wide: &WideMessage,
    info: ClientInfo,
    invite_only: bool,
    settings: &AvatarSettings,
) -> Map<MessageFlavor, MessageView> {
    if info_accepts_messages(info) {
        cache.insert(flavor_of(info), payload_for(cache, wide, info, invite_only, settings))
    } else {
        cache
    }
}

/// The event that a client's queue receives for a message, if any: none
/// for a queue that takes no messages or not this one, and none for the
/// mirroring client that sent the message.
pub open spec fn delivered_event(
    cache: Map<MessageFlavor, MessageView>,
    wide: &WideMessage,
    info: ClientInfo,
    flags: Set<Seq<char>>,
    is_sender: bool,
    internal_data: Option<MessageUserInternalData>,
    invite_only: bool,
    local_id: Option<Seq<char>>,
    settings: &AvatarSettings,
) -> Option<ClientEventView> {
    if !info_accepts_messages(info) {
        None
    } else {
        let event = ClientEventView::Message {
            message: payload_for(cache, wide, info, invite_only, settings),
            flags,
            internal_data,
            local_message_id: if is_sender {
                local_id
            } else {
                None
            },
        };
        if !info_accepts_event(info, event) {
            None
        } else if mirror_loop(wide.client@, info) {
            None
        } else {
            Some(event)
        }
    }
}

/// A log with the event added that was delivered, if one was.
pub open spec fn log_with(log: Seq<ClientEventView>, event: Option<ClientEventView>) -> Seq<
    ClientEventView,
> {
    match event {
        Some(e) => log.push(e),
        None => log,
    }
}

/// The text of an optional reference to a text.
pub open spec fn ref_text_view(text: Option<&String>) -> Option<Seq<char>> {
    match text {
        Some(t) => Some(t@),
        None => None,
    }
}

/// What an optional reference refers to.
pub open spec fn deref_data(data: Option<&MessageUserInternalData>) -> Option<
    MessageUserInternalData,
> {
    match data {
        Some(d) => Some(*d),
        None => None,
    }
}

/// Hands a message to one client: writes the payload for the client's
/// flavor unless the fan-out has written it already, and appends the event
/// to the client's queue if the queue takes it.
pub fn enqueue_message_to_client(
    wide_message: &WideMessage,
    flavor_cache: &mut FlavorCache,
    client: &mut Client,
    flags: &MessageFlags,
    is_sender: bool,
    internal_data: Option<&MessageUserInternalData>,
    invite_only: bool,
    local_id: Option<&String>,
    settings: &AvatarSettings,
)
    ensures
        final(flavor_cache)@ == cache_after(
            old(flavor_cache)@,
            wide_message,
            old(client).info_spec(),
            invite_only,
            settings,
        ),
        final(client).log() == log_with(
            old(client).log(),
            delivered_event(
                old(flavor_cache)@,
                wide_message,
                old(client).info_spec(),
                flags@,
                is_sender,
                deref_data(internal_data),
                invite_only,
                ref_text_view(local_id),
                settings,
            ),
        ),
        final(client).same_queue(old(client)),
        final(client).connected_at() == old(client).connected_at(),
{
    if !client.accepts_messages() {
        // The check that counts is `accepts_event` below; this one only
        // spares the writing of a payload that nobody reads.
        return ;
    }
    let sending_client = wide_message.client.as_str();

    // A mirroring client is told whether the stream is invite-only.
    let invite_only_stream = str_contains(client.info().client_type_name.as_str(), "mirror")
        && invite_only;

    let flavor = MessageFlavor {
        apply_markdown: client.info().apply_markdown,
        client_gravatar: client.info().client_gravatar,
    };
    let message = match flavor_cache.get(&flavor) {
        Some(message) => {
            assert(flavor_cache@ =~= old(flavor_cache)@.insert(flavor, message@));
            message
        },
        None => {
            let message = Arc::new(
                wide_message.finalize_payload(&flavor, false, invite_only_stream, settings),
            );
            flavor_cache.insert(&flavor, Arc::clone(&message));
            message
        },
    };

    let user_event = ClientEvent::Message {
        message,
        flags: flags.clone(),
        internal_data: match internal_data {
            Some(data) => Some(*data),
            None => None,
        },
        local_message_id: if is_sender {
            match local_id {
                Some(id) => Some(id.clone()),
                None => None,
            }
        } else {
            None
        },
    };

    if !client.accepts_event(&user_event) {
        return ;
    }
    // A mirroring client does not get back what it sent itself.

    if str_contains(sending_client, "mirror") && eq_ignore_case(
        sending_client,
        client.info().client_type_name.as_str(),
    ) {
        return ;
    }
    client.add_event(user_event);
}

/// The kinds of event that a notice can carry.
#[derive(Clone, Copy, Debug, PartialEq, Eq, Structural)]
pub enum EventKind {
    Message,
    UpdateMessage,
    DeleteMessage,
    Presence,
    CustomProfileFields,
    CleanupQueue,
    /// Any kind that the dispatcher does not know.
    Other,
}

/// The shape in which the users of a notice are written.
#[derive(Clone, Copy, Debug, PartialEq, Eq, Structural)]
pub enum UsersShape {
    /// Users with their flags, in the current or the legacy form.
    MessageUsers,
    /// Left as it came.
    Unparsed,
    /// A list of user ids, or of records that hold an id and nothing else.
    DeleteMessageUsers,
    /// A list of user ids.
    UserIds,
    /// One user id.
    SingleUser,
}

impl EventKind {
    /// The tag of a kind in the `type` field of an event; a kind that is
    /// not known has none.
    pub open spec fn tag(self) -> Option<Seq<char>> {
        match self {
            EventKind::Message => Some("message"@),
            EventKind::UpdateMessage => Some("update_message"@),
            EventKind::DeleteMessage => Some("delete_message"@),
            EventKind::Presence => Some("presence"@),
            EventKind::CustomProfileFields => Some("custom_profile_fields"@),
            EventKind::CleanupQueue => Some("cleanup_queue"@),
            EventKind::Other => None,
        }
    }

    /// The kind that a tag stands for; `Other` for any tag that is not
    /// known.
    pub open spec fn of_tag(tag: Seq<char>) -> EventKind {
        if tag == "message"@ {
            EventKind::Message
        } else if tag == "update_message"@ {
            EventKind::UpdateMessage
        } else if tag == "delete_message"@ {
            EventKind::DeleteMessage
        } else if tag == "presence"@ {
            EventKind::Presence
        } else if tag == "custom_profile_fields"@ {
            EventKind::CustomProfileFields
        } else if tag == "cleanup_queue"@ {
            EventKind::CleanupQueue
        } else {
            EventKind::Other
        }
    }

    /// The shape in which the users of an event of this kind are written.
    pub open spec fn shape(self) -> UsersShape {
        match self {
            EventKind::Message => UsersShape::MessageUsers,
            EventKind::UpdateMessage => UsersShape::Unparsed,
            EventKind::DeleteMessage => UsersShape::DeleteMessageUsers,
            EventKind::Presence => UsersShape::UserIds,
            EventKind::CustomProfileFields => UsersShape::UserIds,
            EventKind::CleanupQueue => UsersShape::SingleUser,
            EventKind::Other => UsersShape::UserIds,
        }
    }

    /// The tag of the kind, if it has one.
    pub fn as_str(&self) -> (r: Option<&'static str>)
        ensures
            match r {
                Some(tag) => self.tag() == Some(tag@),
                None => self.tag() is None,
            },
    {
        match self {
            EventKind::Message => Some("message"),
            EventKind::UpdateMessage => Some("update_message"),
            EventKind::DeleteMessage => Some("delete_message"),
            EventKind::Presence => Some("presence"),
            EventKind::CustomProfileFields => Some("custom_profile_fields"),
            EventKind::CleanupQueue => Some("cleanup_queue"),
            EventKind::Other => None,
        }
    }

    /// Reads the `type` field of an event.
    pub fn from_tag(tag: &str) -> (r: EventKind)
        ensures
            r == Self::of_tag(tag@),
    {
        if str_eq(tag, "message") {
            EventKind::Message
        } else if str_eq(tag, "update_message") {
            EventKind::UpdateMessage
        } else if str_eq(tag, "delete_message") {
            EventKind::DeleteMessage
        } else if str_eq(tag, "presence") {
            EventKind::Presence
        } else if str_eq(tag, "custom_profile_fields") {
            EventKind::CustomProfileFields
        } else if str_eq(tag, "cleanup_queue") {
            EventKind::CleanupQueue
        } else {
            EventKind::Other
        }
    }

    /// The shape in which the users of an event of this kind are to be
    /// read. It is known only once the kind is.
    pub fn users_shape(&self) -> (r: UsersShape)
        ensures
            r == self.shape(),
    {
        match self {
            EventKind::Message => UsersShape::MessageUsers,
            EventKind::UpdateMessage => UsersShape::Unparsed,
            EventKind::DeleteMessage => UsersShape::DeleteMessageUsers,
            EventKind::Presence => UsersShape::UserIds,
            EventKind::CustomProfileFields => UsersShape::UserIds,
            EventKind::CleanupQueue => UsersShape::SingleUser,
            EventKind::Other => UsersShape::UserIds,
        }
    }
}

/// Writing the tag of a kind and reading it back gives the kind, for each
/// of the kinds that have a tag.
pub proof fn law_event_kind_tag_round_trip(kind: EventKind)
    requires
        kind != EventKind::Other,
    ensures
        kind.tag() is Some,
        EventKind::of_tag(kind.tag()->0) == kind,
{
    reveal_strlit("message");
    reveal_strlit("update_message");
    reveal_strlit("delete_message");
    reveal_strlit("presence");
    reveal_strlit("custom_profile_fields");
    reveal_strlit("cleanup_queue");
    assert("message"@.len() == 7);
    assert("update_message"@.len() == 14);
    assert("delete_message"@.len() == 14);
    assert("presence"@.len() == 8);
    assert("custom_profile_fields"@.len() == 21);
    assert("cleanup_queue"@.len() == 13);
    assert("update_message"@[0] != "delete_message"@[0]);
}

/// A record of the legacy form of the users of a `delete_message` event.
#[derive(Clone, Copy, Debug, PartialEq, Eq, Structural)]
pub struct LegacyDeleteMessageUser {
    pub id: UserId,
}

/// The users of a `delete_message` event, in either form.
#[derive(Debug)]
pub enum DeleteMessageUsers {
    Ids(Vec<UserId>),
    LegacyUsers(Vec<LegacyDeleteMessageUser>),
}

/// An event, as far as the dispatcher reads it.
#[derive(Debug)]
pub enum Event {
    Message(MessageEvent),
    UpdateMessage,
    DeleteMessage,
    Presence,
    CustomProfileFields,
    /// A request to drop a queue, sent on to the process that owns it.
    CleanupQueue { queue_id: QueueId },
    Other,
}

impl Event {
    /// The kind of the event.
    pub open spec fn kind_of(&self) -> EventKind {
        match self {
            Event::Message(_) => EventKind::Message,
            Event::UpdateMessage => EventKind::UpdateMessage,
            Event::DeleteMessage => EventKind::DeleteMessage,
            Event::Presence => EventKind::Presence,
            Event::CustomProfileFields => EventKind::CustomProfileFields,
            Event::CleanupQueue { queue_id } => EventKind::CleanupQueue,
            Event::Other => EventKind::Other,
        }
    }

    /// The kind of the event.
    pub fn kind(&self) -> (r: EventKind)
        ensures
            r == self.kind_of(),
    {
        match self {
            Event::Message(_) => EventKind::Message,
            Event::UpdateMessage => EventKind::UpdateMessage,
            Event::DeleteMessage => EventKind::DeleteMessage,
            Event::Presence => EventKind::Presence,
            Event::CustomProfileFields => EventKind::CustomProfileFields,
            Event::CleanupQueue { .. } => EventKind::CleanupQueue,
            Event::Other => EventKind::Other,
        }
    }
}

/// The users of a notice, read in the shape that the kind of its event
/// asks for.
#[derive(Debug)]
pub enum NoticeUsers {
    Message(MessageUsers),
    Unparsed,
    DeleteMessage(DeleteMessageUsers),
    Ids(Vec<UserId>),
    Single(UserId),
}

impl NoticeUsers {
    /// The shape in which the users are written.
    pub open spec fn shape_of(&self) -> UsersShape {
        match self {
            NoticeUsers::Message(_) => UsersShape::MessageUsers,
            NoticeUsers::Unparsed => UsersShape::Unparsed,
            NoticeUsers::DeleteMessage(_) => UsersShape::DeleteMessageUsers,
            NoticeUsers::Ids(_) => UsersShape::UserIds,
            NoticeUsers::Single(_) => UsersShape::SingleUser,
        }
    }

    /// The shape in which the users are written.
    pub fn shape(&self) -> (r: UsersShape)
        ensures
            r == self.shape_of(),
    {
        match self {
            NoticeUsers::Message(_) => UsersShape::MessageUsers,
            NoticeUsers::Unparsed => UsersShape::Unparsed,
            NoticeUsers::DeleteMessage(_) => UsersShape::DeleteMessageUsers,
            NoticeUsers::Ids(_) => UsersShape::UserIds,
            NoticeUsers::Single(_) => UsersShape::SingleUser,
        }
    }
}

/// One notice of the backend: an event, and the users that it is for.
#[derive(Debug)]
pub struct Notice {
    pub event: Event,
    pub users: NoticeUsers,
}

/// Why a notice was not processed.
#[derive(Clone, Copy, Debug, PartialEq, Eq, Structural)]
pub enum NoticeError {
    /// The users are not written in the shape that the kind of the event
    /// asks for.
    UsersShape,
}

/// Drops the queue `queue_id`; says whether there was one.
pub fn cleanup_queue(queues: &mut Queues, queue_id: &QueueId) -> (r: bool)
    requires
        old(queues).wf(),
    ensures
        final(queues).wf(),
        final(queues)@ == old(queues)@.removed(queue_id@),
        r == old(queues)@.contains(queue_id@),
{
    queues.remove(queue_id).is_some()
}

/// What `process_notice` makes of a notice: the registry afterwards and the
/// envelopes to publish, or the reason for which the notice is refused.
pub open spec fn notice_outcome(view: QueuesView, settings: &AvatarSettings, notice: Notice) -> Result<
    (QueuesView, Seq<Publication>),
    NoticeError,
> {
    if notice.users.shape_of() != notice.event.kind_of().shape() {
        Err(NoticeError::UsersShape)
    } else {
        match notice.event {
            Event::Message(event) => {
                let done = fan_out(
                    view,
                    event.input(&notice.users->Message_0, settings),
                    notice.users->Message_0.recipients(),
                );
                Ok((after_fan_out(view, done.appended), done.outbox))
            },
            Event::CleanupQueue { queue_id } => Ok((view.removed(queue_id@), Seq::empty())),
            _ => Ok((view, Seq::empty())),
        }
    }
}

/// Processes one notice. A message event is fanned out; a `cleanup_queue`
/// event drops the queue it names; events of the other kinds change
/// nothing here. The result holds the envelopes to publish. A notice that
/// is refused changes nothing.
pub fn process_notice(queues: &mut Queues, settings: &AvatarSettings, notice: Notice) -> (r: Result<
    Vec<Publication>,
    NoticeError,
>)
    requires
        old(queues).wf(),
    ensures
        final(queues).wf(),
        match r {
            Ok(outbox) => notice_outcome(old(queues)@, settings, notice) == Ok::<
                (QueuesView, Seq<Publication>),
                NoticeError,
            >((final(queues)@, outbox@)),
            Err(e) => notice_outcome(old(queues)@, settings, notice) == Err::<
                (QueuesView, Seq<Publication>),
                NoticeError,
            >(e) && final(queues)@ == old(queues)@,
        },
{
    let Notice { event, users } = notice;
    match event {
        Event::Message(event) => match users {
            NoticeUsers::Message(users) => Ok(
                process_message_event(queues, settings, event, users),
            ),
            _ => Err(NoticeError::UsersShape),
        },
        // Edits are handled elsewhere.
        Event::UpdateMessage => match users {
            NoticeUsers::Unparsed => Ok(Vec::new()),
            _ => Err(NoticeError::UsersShape),
        },
        // Deletions are handled elsewhere.
        Event::DeleteMessage => match users {
            NoticeUsers::DeleteMessage(_) => Ok(Vec::new()),
            _ => Err(NoticeError::UsersShape),
        },
        Event::Presence => match users {
            NoticeUsers::Ids(_) => Ok(Vec::new()),
            _ => Err(NoticeError::UsersShape),
        },
        Event::CustomProfileFields => match users {
            NoticeUsers::Ids(_) => Ok(Vec::new()),
            _ => Err(NoticeError::UsersShape),
        },
        // Such an event is sent on so that it reaches the process that owns
        // the queue.
        Event::CleanupQueue { queue_id } => match users {
            NoticeUsers::Single(_) => {
                cleanup_queue(queues, &queue_id);
                Ok(Vec::new())
            },
            _ => Err(NoticeError::UsersShape),
        },
        Event::Other => match users {
            NoticeUsers::Ids(_) => Ok(Vec::new()),
            _ => Err(NoticeError::UsersShape),
        },
    }
}

} // verus!
