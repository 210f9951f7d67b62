//! The fan-out of a message event: what it does to the queues of the
//! registry, told as a function of the registry and the event, and the
//! code that carries it out.

use std::collections::HashSet;
use vstd::prelude::*;

use crate::avatar::AvatarSettings;
use crate::events::{ClientEventView, MessageUserInternalData, Notified};
use crate::message::{FlavorCache, MessageFlavor, MessageView, WideMessage};
use crate::notice::{
    cache_after, delivered_event, enqueue_message_to_client, log_with,
    maybe_enqueue_notifications, notified_after, off_zulip, publications, receiver_is_off_zulip,
    takes_messages_at, LegacyMessageUser, MessageUser, MessageUsers, Publication,
};
use crate::notification_data::{UserIdSets, UserIdSetsView, UserMessageNotificationsData};
use crate::queues::{clone_ids, ids_view, ClientInfo, QueueId, Queues, QueuesView};
use crate::text::text_view;
use crate::types::{MessageFlags, RealmId, UserId};

verus! {

broadcast use vstd::std_specs::hash::group_hash_axioms;

/// What a `MessageUser` holds.
pub struct MessageUserView {
    pub id: UserId,
    pub flags: Set<Seq<char>>,
    pub mentioned_user_group_id: Option<UserId>,
}

impl View for MessageUser {
    type V = MessageUserView;

    open spec fn view(&self) -> MessageUserView {
        MessageUserView {
            id: self.id,
            flags: self.flags@,
            mentioned_user_group_id: self.mentioned_user_group_id,
        }
    }
}

/// A notification setting that old servers send on the user's record.
pub enum LegacySetting {
    StreamPush,
    StreamEmail,
    WildcardMention,
    SenderMuted,
    /// Under its own name or the older `always_push_notify`.
    OnlinePush,
}

/// Whether a legacy user has a setting.
pub open spec fn legacy_has(user: LegacyMessageUser, setting: LegacySetting) -> bool {
    match setting {
        LegacySetting::StreamPush => user.stream_push_notify,
        LegacySetting::StreamEmail => user.stream_email_notify,
        LegacySetting::WildcardMention => user.wildcard_mention_notify,
        LegacySetting::SenderMuted => user.sender_is_muted,
        LegacySetting::OnlinePush => user.online_push_enabled || user.always_push_notify,
    }
}

/// The ids of the legacy users that have a setting.
pub open spec fn legacy_ids(legacy: Seq<LegacyMessageUser>, setting: LegacySetting) -> Set<UserId> {
    Set::new(
        |id: UserId|
            exists|i: int|
                0 <= i < legacy.len() && (#[trigger] legacy[i]).user.id == id && legacy_has(
                    legacy[i],
                    setting,
                ),
    )
}

proof fn lemma_legacy_ids_step(legacy: Seq<LegacyMessageUser>, i: int, setting: LegacySetting)
    requires
        0 <= i < legacy.len(),
    ensures
        legacy_ids(legacy.take(i + 1), setting) == if legacy_has(legacy[i], setting) {
            legacy_ids(legacy.take(i), setting).insert(legacy[i].user.id)
        } else {
            legacy_ids(legacy.take(i), setting)
        },
{
    let short = legacy.take(i);
    let long = legacy.take(i + 1);
    let target = if legacy_has(legacy[i], setting) {
        legacy_ids(short, setting).insert(legacy[i].user.id)
    } else {
        legacy_ids(short, setting)
    };
    assert forall|id: UserId| legacy_ids(long, setting).contains(id) <==> target.contains(id) by {
        if legacy_ids(long, setting).contains(id) {
            let j = choose|j: int|
                0 <= j < long.len() && (#[trigger] long[j]).user.id == id && legacy_has(
                    long[j],
                    setting,
                );
            if j < i {
                assert(short[j].user.id == id && legacy_has(short[j], setting));
            }
        }
        if legacy_ids(short, setting).contains(id) {
            let j = choose|j: int|
                0 <= j < short.len() && (#[trigger] short[j]).user.id == id && legacy_has(
                    short[j],
                    setting,
                );
            assert(long[j].user.id == id && legacy_has(long[j], setting));
        }
        if legacy_has(legacy[i], setting) && id == legacy[i].user.id {
            assert(long[i].user.id == id && legacy_has(long[i], setting));
        }
    }
    assert(legacy_ids(long, setting) =~= target);
}

/// The views of a list of users.
pub open spec fn users_view(users: Seq<MessageUser>) -> Seq<MessageUserView> {
    users.map_values(|u: MessageUser| u@)
}

/// The users of a list in the legacy shape, without their settings.
pub open spec fn legacy_recipients(legacy: Seq<LegacyMessageUser>) -> Seq<MessageUserView> {
    legacy.map_values(|l: LegacyMessageUser| l.user@)
}

impl MessageUsers {
    /// The users in the current shape.
    pub open spec fn recipients(&self) -> Seq<MessageUserView> {
        match self {
            MessageUsers::Users(users) => users_view(users@),
            MessageUsers::LegacyUsers(legacy) => legacy_recipients(legacy@),
        }
    }

    /// The users in the legacy shape; none where the current shape is
    /// used.
    pub open spec fn legacy(&self) -> Seq<LegacyMessageUser> {
        match self {
            MessageUsers::Users(users) => Seq::empty(),
            MessageUsers::LegacyUsers(legacy) => legacy@,
        }
    }
}

/// A message event: the message, and what the backend says of the users
/// that it is for.
#[derive(Debug)]
pub struct MessageEvent {
    /// The queue of the client that sent the message.
    pub sender_queue_id: Option<QueueId>,
    pub stream_name: Option<String>,
    pub invite_only: bool,
    pub realm_id: Option<RealmId>,
    /// The id that the sending client gave the message.
    pub local_id: Option<String>,
    pub presence_idle_user_ids: HashSet<UserId>,
    pub online_push_user_ids: HashSet<UserId>,
    pub dm_mention_push_disabled_user_ids: HashSet<UserId>,
    pub dm_mention_email_disabled_user_ids: HashSet<UserId>,
    pub stream_push_user_ids: HashSet<UserId>,
    pub stream_email_user_ids: HashSet<UserId>,
    pub topic_wildcard_mention_user_ids: HashSet<UserId>,
    pub stream_wildcard_mention_user_ids: HashSet<UserId>,
    pub followed_topic_push_user_ids: HashSet<UserId>,
    pub followed_topic_email_user_ids: HashSet<UserId>,
    pub topic_wildcard_mention_in_followed_topic_user_ids: HashSet<UserId>,
    pub stream_wildcard_mention_in_followed_topic_user_ids: HashSet<UserId>,
    pub muted_sender_user_ids: HashSet<UserId>,
    pub all_bot_user_ids: HashSet<UserId>,
    pub disable_external_notifications: bool,
    pub message_dict: WideMessage,
}

/// What a fan-out reads of a message event.
pub struct FanOutInput {
    /// The message, with its delivery email filled in.
    pub wide: WideMessage,
    /// The sets of the event, with the settings of legacy users moved in.
    pub sets: UserIdSetsView,
    pub presence_idle_user_ids: Set<UserId>,
    pub sender_queue_id: Option<Seq<char>>,
    pub local_id: Option<Seq<char>>,
    pub invite_only: bool,
    /// The realm whose followers of all public streams get the message:
    /// that of the event, where the message went to a stream that is not
    /// invite-only.
    pub public_realm: Option<RealmId>,
    pub settings: AvatarSettings,
}

impl MessageEvent {
    /// The sets by which notifiability is derived: those of the event, each
    /// with the legacy users that have the matching setting.
    pub open spec fn user_id_sets(&self, legacy: Seq<LegacyMessageUser>) -> UserIdSetsView {
        UserIdSetsView {
            private_message: self.message_dict.recipient@ is Private,
            disable_external_notifications: self.disable_external_notifications,
            online_push_user_ids: self.online_push_user_ids@ + legacy_ids(
                legacy,
                LegacySetting::OnlinePush,
            ),
            dm_mention_push_disabled_user_ids: self.dm_mention_push_disabled_user_ids@,
            dm_mention_email_disabled_user_ids: self.dm_mention_email_disabled_user_ids@,
            stream_push_user_ids: self.stream_push_user_ids@ + legacy_ids(
                legacy,
                LegacySetting::StreamPush,
            ),
            stream_email_user_ids: self.stream_email_user_ids@ + legacy_ids(
                legacy,
                LegacySetting::StreamEmail,
            ),
            topic_wildcard_mention_user_ids: self.topic_wildcard_mention_user_ids@,
            stream_wildcard_mention_user_ids: self.stream_wildcard_mention_user_ids@ + legacy_ids(
                legacy,
                LegacySetting::WildcardMention,
            ),
            followed_topic_push_user_ids: self.followed_topic_push_user_ids@,
            followed_topic_email_user_ids: self.followed_topic_email_user_ids@,
            topic_wildcard_mention_in_followed_topic_user_ids: self.topic_wildcard_mention_in_followed_topic_user_ids@,
            stream_wildcard_mention_in_followed_topic_user_ids: self.stream_wildcard_mention_in_followed_topic_user_ids@,
            muted_sender_user_ids: self.muted_sender_user_ids@ + legacy_ids(
                legacy,
                LegacySetting::SenderMuted,
            ),
            all_bot_user_ids: self.all_bot_user_ids@,
        }
    }

    /// What the fan-out of this event reads.
    pub open spec fn input(&self, users: &MessageUsers, settings: &AvatarSettings) -> FanOutInput {
        FanOutInput {
            wide: self.message_dict.backfilled(),
            sets: self.user_id_sets(users.legacy()),
            presence_idle_user_ids: self.presence_idle_user_ids@,
            sender_queue_id: match self.sender_queue_id {
                Some(id) => Some(id@),
                None => None,
            },
            local_id: text_view(self.local_id),
            invite_only: self.invite_only,
            public_realm: if self.stream_name is Some && !self.invite_only {
                self.realm_id
            } else {
                None
            },
            settings: *settings,
        }
    }
}

/// What a fan-out has done so far.
pub struct FanOut {
    /// For each queue the events appended to it, oldest first.
    pub appended: Map<Seq<char>, Seq<ClientEventView>>,
    /// The payloads written, by flavor.
    pub cache: Map<MessageFlavor, MessageView>,
    /// The envelopes to publish, in the order in which they were asked for.
    pub outbox: Seq<Publication>,
}

impl FanOut {
    /// Nothing done yet.
    pub open spec fn start() -> FanOut {
        FanOut {
            appended: Map::total(|id: Seq<char>| Seq::<ClientEventView>::empty()),
            cache: Map::empty(),
            outbox: Seq::empty(),
        }
    }
}

/// The fan-out after the message was handed to the queue `id`.
pub open spec fn deliver_one(
    state: FanOut,
    infos: Map<Seq<char>, ClientInfo>,
    id: Seq<char>,
    input: FanOutInput,
    flags: Set<Seq<char>>,
    internal_data: Option<MessageUserInternalData>,
) -> FanOut {
    if infos.contains_key(id) {
        FanOut {
            appended: state.appended.insert(
                id,
                log_with(
                    state.appended[id],
                    delivered_event(
                        state.cache,
                        &input.wide,
                        infos[id],
                        flags,
                        input.sender_queue_id == Some(id),
                        internal_data,
                        input.invite_only,
                        input.local_id,
                        &input.settings,
                    ),
                ),
            ),
            cache: cache_after(
                state.cache,
                &input.wide,
                infos[id],
                input.invite_only,
                &input.settings,
            ),
            outbox: state.outbox,
        }
    } else {
        state
    }
}

/// The fan-out after the message was handed to the queues `ids`, one
/// after the other.
pub open spec fn deliver_all(
    state: FanOut,
    infos: Map<Seq<char>, ClientInfo>,
    ids: Seq<Seq<char>>,
    input: FanOutInput,
    flags: Set<Seq<char>>,
    internal_data: Option<MessageUserInternalData>,
) -> FanOut
    decreases ids.len(),
{
    if ids.len() == 0 {
        state
    } else {
        deliver_one(
            deliver_all(state, infos, ids.drop_last(), input, flags, internal_data),
            infos,
            ids.last(),
            input,
            flags,
            internal_data,
        )
    }
}

/// The fan-out after the message was handed, without flags, to those of
/// the queues `ids` whose user is not among `processed`.
pub open spec fn deliver_realm(
    state: FanOut,
    infos: Map<Seq<char>, ClientInfo>,
    ids: Seq<Seq<char>>,
    input: FanOutInput,
    processed: Set<UserId>,
) -> FanOut
    decreases ids.len(),
{
    if ids.len() == 0 {
        state
    } else {
        let before = deliver_realm(state, infos, ids.drop_last(), input, processed);
        if infos.contains_key(ids.last()) && processed.contains(
            infos[ids.last()].user_profile_id,
        ) {
            before
        } else {
            deliver_one(before, infos, ids.last(), input, Set::empty(), None)
        }
    }
}

/// What the server keeps with the event for a user, and the envelopes that
/// are published for the user: nothing is published unless something
/// would be owed to the user when idle; the user counts as idle when away
/// or when the event says so.
pub open spec fn user_outcome(view: QueuesView, input: FanOutInput, user: MessageUserView) -> (
    MessageUserInternalData,
    Seq<Publication>,
) {
    let data = UserMessageNotificationsData::derived(user.id, user.flags, input.sets);
    let none = Notified { push_notified: false, email_notified: false };
    if data.notifiable(input.wide.sender_id, true) {
        let idle = off_zulip(view, user.id) || input.presence_idle_user_ids.contains(user.id);
        (
            MessageUserInternalData {
                user_notifications_data: data,
                mentioned_user_group_id: user.mentioned_user_group_id,
                notified: notified_after(data, input.wide.sender_id, idle, none),
            },
            publications(
                data,
                input.wide.sender_id,
                input.wide.id,
                user.mentioned_user_group_id,
                idle,
                none,
            ),
        )
    } else {
        (
            MessageUserInternalData {
                user_notifications_data: data,
                mentioned_user_group_id: user.mentioned_user_group_id,
                notified: none,
            },
            Seq::empty(),
        )
    }
}

/// The ids of the queues of a user; none for a user without queues.
pub open spec fn queues_of(view: QueuesView, user_id: UserId) -> Seq<Seq<char>> {
    if view.by_user.contains_key(user_id as int) {
        view.by_user[user_id as int]
    } else {
        Seq::empty()
    }
}

/// The fan-out after one user was served: the user's envelopes are asked
/// for, then the message is handed to each of the user's queues.
pub open spec fn serve_user(
    state: FanOut,
    view: QueuesView,
    input: FanOutInput,
    user: MessageUserView,
) -> FanOut {
    let outcome = user_outcome(view, input, user);
    deliver_all(
        FanOut { outbox: state.outbox + outcome.1, ..state },
        view.infos,
        queues_of(view, user.id),
        input,
        user.flags,
        Some(outcome.0),
    )
}

/// The fan-out after the users were served, one after the other.
pub open spec fn serve_users(
    state: FanOut,
    view: QueuesView,
    input: FanOutInput,
    users: Seq<MessageUserView>,
) -> FanOut
    decreases users.len(),
{
    if users.len() == 0 {
        state
    } else {
        serve_user(
            serve_users(state, view, input, users.drop_last()),
            view,
            input,
            users.last(),
        )
    }
}

/// The ids of the users of a list.
pub open spec fn user_ids(users: Seq<MessageUserView>) -> Set<UserId> {
    Set::new(|id: UserId| exists|i: int| 0 <= i < users.len() && (#[trigger] users[i]).id == id)
}

/// The ids of the queues that follow all public streams of the realm of a
/// public message; none where the message is not public.
pub open spec fn realm_queues(view: QueuesView, input: FanOutInput) -> Seq<Seq<char>> {
    match input.public_realm {
        Some(realm) => if view.by_realm_all_streams.contains_key(realm as int) {
            view.by_realm_all_streams[realm as int]
        } else {
            Seq::empty()
        },
        None => Seq::empty(),
    }
}

/// The whole fan-out of a message event over the registry `view`: the
/// users are served in their order, then the message is handed to the
/// queues that follow all public streams of the realm, but for those of the
/// users already served.
pub open spec fn fan_out(view: QueuesView, input: FanOutInput, users: Seq<MessageUserView>) -> FanOut {
    deliver_realm(
        serve_users(FanOut::start(), view, input, users),
        view.infos,
        realm_queues(view, input),
        input,
        user_ids(users),
    )
}

/// The logs of a registry, each with the events that a fan-out appended.
pub open spec fn logs_extended(
    logs: Map<Seq<char>, Seq<ClientEventView>>,
    appended: Map<Seq<char>, Seq<ClientEventView>>,
) -> Map<Seq<char>, Seq<ClientEventView>> {
    Map::new(|id: Seq<char>| logs.contains_key(id), |id: Seq<char>| logs[id] + appended[id])
}

/// The registry after a fan-out: each queue holds the events that were
/// appended to it, and nothing else has changed.
pub open spec fn after_fan_out(view: QueuesView, appended: Map<Seq<char>, Seq<ClientEventView>>) -> QueuesView {
    QueuesView { logs: logs_extended(view.logs, appended), ..view }
}

/// The registry and the cache are where the fan-out `state` has brought
/// them from the registry `start`.
spec fn tracks(
    now: QueuesView,
    cache: Map<MessageFlavor, MessageView>,
    start: QueuesView,
    state: FanOut,
) -> bool {
    now == after_fan_out(start, state.appended) && cache == state.cache
}

/// The fan-out input speaks of these values.
spec fn input_matches(
    input: FanOutInput,
    wide: &WideMessage,
    sender_queue_id: &Option<QueueId>,
    invite_only: bool,
    local_id: &Option<String>,
    settings: &AvatarSettings,
) -> bool {
    &&& input.wide == *wide
    &&& input.settings == *settings
    &&& input.invite_only == invite_only
    &&& input.local_id == text_view(*local_id)
    &&& input.sender_queue_id == match *sender_queue_id {
        Some(id) => Some(id@),
        None => None,
    }
}

/// Handing a message to queues asks for no envelope.
pub proof fn lemma_deliver_all_outbox(
    state: FanOut,
    infos: Map<Seq<char>, ClientInfo>,
    ids: Seq<Seq<char>>,
    input: FanOutInput,
    flags: Set<Seq<char>>,
    internal_data: Option<MessageUserInternalData>,
)
    ensures
        deliver_all(state, infos, ids, input, flags, internal_data).outbox == state.outbox,
    decreases ids.len(),
{
    if ids.len() > 0 {
        lemma_deliver_all_outbox(state, infos, ids.drop_last(), input, flags, internal_data);
    }
}

/// Handing a message to the followers of a realm asks for no envelope.
pub proof fn lemma_deliver_realm_outbox(
    state: FanOut,
    infos: Map<Seq<char>, ClientInfo>,
    ids: Seq<Seq<char>>,
    input: FanOutInput,
    processed: Set<UserId>,
)
    ensures
        deliver_realm(state, infos, ids, input, processed).outbox == state.outbox,
    decreases ids.len(),
{
    if ids.len() > 0 {
        lemma_deliver_realm_outbox(state, infos, ids.drop_last(), input, processed);
    }
}

/// Whether a user is away depends on the queues and their users alone, not
/// on what the queues hold.
pub proof fn lemma_off_zulip_same(now: QueuesView, start: QueuesView, user_id: UserId)
    requires
        now.infos == start.infos,
        now.by_user == start.by_user,
    ensures
        off_zulip(now, user_id) == off_zulip(start, user_id),
{
    if start.by_user.contains_key(user_id as int) {
        assert forall|at: int| takes_messages_at(now, user_id, at) == takes_messages_at(
            start,
            user_id,
            at,
        ) by {}
    }
}

/// One more user of the list adds that user's id to the ids.
pub proof fn lemma_user_ids_step(users: Seq<MessageUserView>, i: int)
    requires
        0 <= i < users.len(),
    ensures
        user_ids(users.take(i + 1)) == user_ids(users.take(i)).insert(users[i].id),
{
    let short = users.take(i);
    let long = users.take(i + 1);
    assert forall|id: UserId| user_ids(long).contains(id) <==> user_ids(short).insert(
        users[i].id,
    ).contains(id) by {
        if user_ids(long).contains(id) {
            let j = choose|j: int| 0 <= j < long.len() && (#[trigger] long[j]).id == id;
            if j < i {
                assert(short[j].id == id);
            }
        }
        if user_ids(short).contains(id) {
            let j = choose|j: int| 0 <= j < short.len() && (#[trigger] short[j]).id == id;
            assert(long[j].id == id);
        }
        if id == users[i].id {
            assert(long[i].id == id);
        }
    }
    assert(user_ids(long) =~= user_ids(short).insert(users[i].id));
}

/// Moves the settings that legacy users carry into the sets of the event,
/// and gives the users in the current shape.
fn normalize_legacy_users(
    legacy_users: Vec<LegacyMessageUser>,
    stream_push_user_ids: &mut HashSet<UserId>,
    stream_email_user_ids: &mut HashSet<UserId>,
    stream_wildcard_mention_user_ids: &mut HashSet<UserId>,
    muted_sender_user_ids: &mut HashSet<UserId>,
    online_push_user_ids: &mut HashSet<UserId>,
) -> (users: Vec<MessageUser>)
    ensures
        users_view(users@) == legacy_recipients(legacy_users@),
        final(stream_push_user_ids)@ == old(stream_push_user_ids)@ + legacy_ids(
            legacy_users@,
            LegacySetting::StreamPush,
        ),
        final(stream_email_user_ids)@ == old(stream_email_user_ids)@ + legacy_ids(
            legacy_users@,
            LegacySetting::StreamEmail,
        ),
        final(stream_wildcard_mention_user_ids)@ == old(stream_wildcard_mention_user_ids)@
            + legacy_ids(legacy_users@, LegacySetting::WildcardMention),
        final(muted_sender_user_ids)@ == old(muted_sender_user_ids)@ + legacy_ids(
            legacy_users@,
            LegacySetting::SenderMuted,
        ),
        final(online_push_user_ids)@ == old(online_push_user_ids)@ + legacy_ids(
            legacy_users@,
            LegacySetting::OnlinePush,
        ),
{
    let mut users: Vec<MessageUser> = Vec::new();
    let mut i: usize = 0;
    proof {
        assert(legacy_users@.take(0).len() == 0);
        assert(legacy_ids(legacy_users@.take(0), LegacySetting::StreamPush) =~= Set::empty());
        assert(legacy_ids(legacy_users@.take(0), LegacySetting::StreamEmail) =~= Set::empty());
        assert(legacy_ids(legacy_users@.take(0), LegacySetting::WildcardMention) =~= Set::empty());
        assert(legacy_ids(legacy_users@.take(0), LegacySetting::SenderMuted) =~= Set::empty());
        assert(legacy_ids(legacy_users@.take(0), LegacySetting::OnlinePush) =~= Set::empty());
    }
    while i < legacy_users.len()
        invariant
            i <= legacy_users.len(),
            users@.len() == i,
            forall|j: int| 0 <= j < i ==> users@[j]@ == legacy_users@[j].user@,
            stream_push_user_ids@ =~= old(stream_push_user_ids)@ + legacy_ids(
                legacy_users@.take(i as int),
                LegacySetting::StreamPush,
            ),
            stream_email_user_ids@ =~= old(stream_email_user_ids)@ + legacy_ids(
                legacy_users@.take(i as int),
                LegacySetting::StreamEmail,
            ),
            stream_wildcard_mention_user_ids@ =~= old(stream_wildcard_mention_user_ids)@
                + legacy_ids(legacy_users@.take(i as int), LegacySetting::WildcardMention),
            muted_sender_user_ids@ =~= old(muted_sender_user_ids)@ + legacy_ids(
                legacy_users@.take(i as int),
                LegacySetting::SenderMuted,
            ),
            online_push_user_ids@ =~= old(online_push_user_ids)@ + legacy_ids(
                legacy_users@.take(i as int),
                LegacySetting::OnlinePush,
            ),
        decreases legacy_users.len() - i,
    {
        let legacy_user = &legacy_users[i];
        let user_id = legacy_user.user.id;
        proof {
            lemma_legacy_ids_step(legacy_users@, i as int, LegacySetting::StreamPush);
            lemma_legacy_ids_step(legacy_users@, i as int, LegacySetting::StreamEmail);
            lemma_legacy_ids_step(legacy_users@, i as int, LegacySetting::WildcardMention);
            lemma_legacy_ids_step(legacy_users@, i as int, LegacySetting::SenderMuted);
            lemma_legacy_ids_step(legacy_users@, i as int, LegacySetting::OnlinePush);
        }
        if legacy_user.stream_push_notify {
            stream_push_user_ids.insert(user_id);
        }
        if legacy_user.stream_email_notify {
            stream_email_user_ids.insert(user_id);
        }
        if legacy_user.wildcard_mention_notify {
            stream_wildcard_mention_user_ids.insert(user_id);
        }
        if legacy_user.sender_is_muted {
            muted_sender_user_ids.insert(user_id);
        }
        // `always_push_notify` is the older name of `online_push_enabled`.

        if legacy_user.online_push_enabled || legacy_user.always_push_notify {
            online_push_user_ids.insert(user_id);
        }
        users.push(
            MessageUser {
                id: user_id,
                flags: legacy_user.user.flags.clone(),
                mentioned_user_group_id: legacy_user.user.mentioned_user_group_id,
            },
        );
        i += 1;
    }
    assert(legacy_users@.take(legacy_users.len() as int) =~= legacy_users@);
    assert(users_view(users@) =~= legacy_recipients(legacy_users@));
    users
}

/// Hands the message to each of the queues of one user.
fn enqueue_to_user_queues(
    queues: &mut Queues,
    flavor_cache: &mut FlavorCache,
    ids: &Vec<QueueId>,
    wide_message: &WideMessage,
    flags: &MessageFlags,
    internal_data: &MessageUserInternalData,
    sender_queue_id: &Option<QueueId>,
    invite_only: bool,
    local_id: &Option<String>,
    settings: &AvatarSettings,
    Ghost(input): Ghost<FanOutInput>,
    Ghost(start): Ghost<QueuesView>,
    Ghost(state): Ghost<FanOut>,
)
    requires
        old(queues).wf(),
        input_matches(input, wide_message, sender_queue_id, invite_only, local_id, settings),
        tracks(old(queues)@, old(flavor_cache)@, start, state),
    ensures
        final(queues).wf(),
        tracks(
            final(queues)@,
            final(flavor_cache)@,
            start,
            deliver_all(state, start.infos, ids_view(ids@), input, flags@, Some(*internal_data)),
        ),
{
    let ghost all = ids_view(ids@);
    let mut k: usize = 0;
    proof {
        queues.lemma_wf_consistent();
    }
    while k < ids.len()
        invariant
            k <= ids.len(),
            all == ids_view(ids@),
            queues.wf(),
            input_matches(input, wide_message, sender_queue_id, invite_only, local_id, settings),
            tracks(
                queues@,
                flavor_cache@,
                start,
                deliver_all(
                    state,
                    start.infos,
                    all.take(k as int),
                    input,
                    flags@,
                    Some(*internal_data),
                ),
            ),
        decreases ids.len() - k,
    {
        let ghost before = queues@;
        let ghost reached = deliver_all(
            state,
            start.infos,
            all.take(k as int),
            input,
            flags@,
            Some(*internal_data),
        );
        let ghost id = ids@[k as int]@;
        proof {
            queues.lemma_wf_consistent();
            assert(all[k as int] == id);
            assert(all.take(k + 1).drop_last() =~= all.take(k as int));
            assert(all.take(k + 1).last() == id);
        }
        match queues.get_mut(&ids[k]) {
            Ok(client) => {
                let is_sender = match sender_queue_id {
                    Some(sender) => sender.same(client.queue_id()),
                    None => false,
                };
                enqueue_message_to_client(
                    wide_message,
                    flavor_cache,
                    client,
                    flags,
                    is_sender,
                    Some(internal_data),
                    invite_only,
                    local_id.as_ref(),
                    settings,
                );
            },
            Err(_) => {},
        }
        proof {
            let next = deliver_one(reached, start.infos, id, input, flags@, Some(*internal_data));
            let target = after_fan_out(start, next.appended);
            assert(queues@.logs =~= target.logs);
            assert(queues@.connected_at =~= target.connected_at);
        }
        k += 1;
    }
    assert(all.take(ids.len() as int) =~= all);
}

/// Hands the message, without flags, to each of the queues that follow
/// all public streams of the realm, but for those of the users already
/// served.
fn enqueue_to_realm_queues(
    queues: &mut Queues,
    flavor_cache: &mut FlavorCache,
    ids: &Vec<QueueId>,
    processed_user_ids: &HashSet<UserId>,
    wide_message: &WideMessage,
    sender_queue_id: &Option<QueueId>,
    invite_only: bool,
    local_id: &Option<String>,
    settings: &AvatarSettings,
    Ghost(input): Ghost<FanOutInput>,
    Ghost(start): Ghost<QueuesView>,
    Ghost(state): Ghost<FanOut>,
)
    requires
        old(queues).wf(),
        input_matches(input, wide_message, sender_queue_id, invite_only, local_id, settings),
        tracks(old(queues)@, old(flavor_cache)@, start, state),
    ensures
        final(queues).wf(),
        tracks(
            final(queues)@,
            final(flavor_cache)@,
            start,
            deliver_realm(state, start.infos, ids_view(ids@), input, processed_user_ids@),
        ),
{
    let ghost all = ids_view(ids@);
    let no_flags = MessageFlags::new();
    let mut k: usize = 0;
    while k < ids.len()
        invariant
            k <= ids.len(),
            all == ids_view(ids@),
            no_flags@ == Set::<Seq<char>>::empty(),
            queues.wf(),
            input_matches(input, wide_message, sender_queue_id, invite_only, local_id, settings),
            tracks(
                queues@,
                flavor_cache@,
                start,
                deliver_realm(state, start.infos, all.take(k as int), input, processed_user_ids@),
            ),
        decreases ids.len() - k,
    {
        let ghost reached = deliver_realm(
            state,
            start.infos,
            all.take(k as int),
            input,
            processed_user_ids@,
        );
        let ghost id = ids@[k as int]@;
        let ghost before = queues@;
        proof {
            queues.lemma_wf_consistent();
            assert(all[k as int] == id);
            assert(all.take(k + 1).drop_last() =~= all.take(k as int));
            assert(all.take(k + 1).last() == id);
        }
        let served = match queues.get(&ids[k]) {
            Ok(client) => processed_user_ids.contains(&client.info().user_profile_id),
            Err(_) => true,
        };
        if !served {
            match queues.get_mut(&ids[k]) {
                Ok(client) => {
                    let is_sender = match sender_queue_id {
                        Some(sender) => sender.same(client.queue_id()),
                        None => false,
                    };
                    enqueue_message_to_client(
                        wide_message,
                        flavor_cache,
                        client,
                        &no_flags,
                        is_sender,
                        None,
                        invite_only,
                        local_id.as_ref(),
                        settings,
                    );
                },
                Err(_) => {},
            }
        }
        proof {
            let next = deliver_realm(
                state,
                start.infos,
                all.take(k + 1),
                input,
                processed_user_ids@,
            );
            let skipped = start.infos.contains_key(id) && processed_user_ids@.contains(
                start.infos[id].user_profile_id,
            );
            assert(next == if skipped {
                reached
            } else {
                deliver_one(reached, start.infos, id, input, Set::empty(), None)
            });
            let target = after_fan_out(start, next.appended);
            assert(queues@.logs =~= target.logs);
            assert(queues@.connected_at =~= target.connected_at);
        }
        k += 1;
    }
    assert(all.take(ids.len() as int) =~= all);
}

/// Fans a message event out: serves each user of the event, and then
/// hands a public message to the queues that follow all public streams of
/// its realm. The result holds the envelopes to publish, in order.
pub fn process_message_event(
    queues: &mut Queues,
    settings: &AvatarSettings,
    event_template: MessageEvent,
    users: MessageUsers,
) -> (outbox: Vec<Publication>)
    requires
        old(queues).wf(),
    ensures
        final(queues).wf(),
        final(queues)@ == after_fan_out(
            old(queues)@,
            fan_out(
                old(queues)@,
                event_template.input(&users, settings),
                users.recipients(),
            ).appended,
        ),
        outbox@ == fan_out(
            old(queues)@,
            event_template.input(&users, settings),
            users.recipients(),
        ).outbox,
{
    let ghost input = event_template.input(&users, settings);
    let ghost recipients = users.recipients();
    let ghost start = queues@;
    let MessageEvent {
        sender_queue_id,
        stream_name,
        invite_only,
        realm_id,
        local_id,
        presence_idle_user_ids,
        mut online_push_user_ids,
        dm_mention_push_disabled_user_ids,
        dm_mention_email_disabled_user_ids,
        mut stream_push_user_ids,
        mut stream_email_user_ids,
        topic_wildcard_mention_user_ids,
        mut stream_wildcard_mention_user_ids,
        followed_topic_push_user_ids,
        followed_topic_email_user_ids,
        topic_wildcard_mention_in_followed_topic_user_ids,
        stream_wildcard_mention_in_followed_topic_user_ids,
        mut muted_sender_user_ids,
        all_bot_user_ids,
        disable_external_notifications,
        message_dict,
    } = event_template;

    let users = match users {
        MessageUsers::Users(users) => users,
        // Old servers send the users with their settings on the record.
        // The settings go into the sets of the event, where servers now
        // put them.
        MessageUsers::LegacyUsers(legacy_users) => normalize_legacy_users(
            legacy_users,
            &mut stream_push_user_ids,
            &mut stream_email_user_ids,
            &mut stream_wildcard_mention_user_ids,
            &mut muted_sender_user_ids,
            &mut online_push_user_ids,
        ),
    };

    let mut wide_message = message_dict;
    wide_message.backfill_delivery_email();

    let sender_id = wide_message.sender_id;
    let message_id = wide_message.id;

    let user_id_sets = UserIdSets {
        private_message: wide_message.recipient.is_private(),
        disable_external_notifications,
        online_push_user_ids,
        dm_mention_push_disabled_user_ids,
        dm_mention_email_disabled_user_ids,
        stream_push_user_ids,
        stream_email_user_ids,
        topic_wildcard_mention_user_ids,
        stream_wildcard_mention_user_ids,
        followed_topic_push_user_ids,
        followed_topic_email_user_ids,
        topic_wildcard_mention_in_followed_topic_user_ids,
        stream_wildcard_mention_in_followed_topic_user_ids,
        muted_sender_user_ids,
        all_bot_user_ids,
    };
    proof {
        assert(user_id_sets@.online_push_user_ids =~= input.sets.online_push_user_ids);
        assert(user_id_sets@.stream_push_user_ids =~= input.sets.stream_push_user_ids);
        assert(user_id_sets@.stream_email_user_ids =~= input.sets.stream_email_user_ids);
        assert(user_id_sets@.stream_wildcard_mention_user_ids
            =~= input.sets.stream_wildcard_mention_user_ids);
        assert(user_id_sets@.muted_sender_user_ids =~= input.sets.muted_sender_user_ids);
        assert(user_id_sets@ == input.sets);
        assert(users_view(users@) == recipients);
        assert(wide_message == input.wide);
        queues.lemma_wf_consistent();
        assert(queues@.logs =~= after_fan_out(start, FanOut::start().appended).logs);
    }

    let mut flavor_cache = FlavorCache::new();
    let mut outbox: Vec<Publication> = Vec::new();
    let mut processed_user_ids: HashSet<UserId> = HashSet::new();
    assert(processed_user_ids@ =~= user_ids(recipients.take(0)));

    let mut i: usize = 0;
    while i < users.len()
        invariant
            i <= users.len(),
            queues.wf(),
            start.consistent(),
            users_view(users@) == recipients,
            user_id_sets@ == input.sets,
            presence_idle_user_ids@ == input.presence_idle_user_ids,
            sender_id == input.wide.sender_id,
            message_id == input.wide.id,
            input_matches(input, &wide_message, &sender_queue_id, invite_only, &local_id, settings),
            processed_user_ids@ == user_ids(recipients.take(i as int)),
            tracks(
                queues@,
                flavor_cache@,
                start,
                serve_users(FanOut::start(), start, input, recipients.take(i as int)),
            ),
            outbox@ == serve_users(
                FanOut::start(),
                start,
                input,
                recipients.take(i as int),
            ).outbox,
        decreases users.len() - i,
    {
        let user_data = &users[i];
        let user_profile_id = user_data.id;
        let mentioned_user_group_id = user_data.mentioned_user_group_id;
        let ghost reached = serve_users(FanOut::start(), start, input, recipients.take(i as int));
        let ghost user = recipients[i as int];
        proof {
            assert(user == user_data@);
            assert(recipients.take(i + 1).drop_last() =~= recipients.take(i as int));
            assert(recipients.take(i + 1).last() == user);
            lemma_user_ids_step(recipients, i as int);
            lemma_off_zulip_same(queues@, start, user_profile_id);
        }

        // Whether the user is owed a notification for the message, and of
        // which kind.
        let user_notifications_data = UserMessageNotificationsData::from_user_id_sets(
            user_profile_id,
            &user_data.flags,
            &user_id_sets,
        );

        // What is not owed to an idle user is not owed to the user at all:
        // then there is no need to find out whether the user is away.
        let notified = if user_notifications_data.is_notifiable(sender_id, true) {
            let idle = receiver_is_off_zulip(queues, user_profile_id)
                || presence_idle_user_ids.contains(&user_profile_id);
            maybe_enqueue_notifications(
                &mut outbox,
                &user_notifications_data,
                sender_id,
                message_id,
                mentioned_user_group_id,
                idle,
                &Notified { push_notified: false, email_notified: false },
            )
        } else {
            Notified::default()
        };

        let internal_data = MessageUserInternalData {
            user_notifications_data,
            mentioned_user_group_id,
            notified,
        };
        let ghost outcome = user_outcome(start, input, user);
        assert(internal_data == outcome.0);
        assert(outbox@ =~= reached.outbox + outcome.1);

        let ids = match queues.for_user(user_profile_id) {
            Some(ids) => clone_ids(ids),
            None => Vec::new(),
        };
        assert(ids_view(ids@) =~= queues_of(start, user_profile_id));
        let ghost asked = FanOut { outbox: reached.outbox + outcome.1, ..reached };
        enqueue_to_user_queues(
            queues,
            &mut flavor_cache,
            &ids,
            &wide_message,
            &user_data.flags,
            &internal_data,
            &sender_queue_id,
            invite_only,
            &local_id,
            settings,
            Ghost(input),
            Ghost(start),
            Ghost(asked),
        );
        proof {
            lemma_deliver_all_outbox(
                asked,
                start.infos,
                queues_of(start, user_profile_id),
                input,
                user.flags,
                Some(outcome.0),
            );
        }
        processed_user_ids.insert(user_profile_id);
        i += 1;
    }
    assert(recipients.take(users.len() as int) =~= recipients);
    let ghost served = serve_users(FanOut::start(), start, input, recipients);

    let ids = if stream_name.is_some() && !invite_only {
        match realm_id {
            Some(realm_id) => match queues.for_realm_all_streams(realm_id) {
                Some(ids) => clone_ids(ids),
                None => Vec::new(),
            },
            None => Vec::new(),
        }
    } else {
        Vec::new()
    };
    assert(ids_view(ids@) =~= realm_queues(start, input));
    enqueue_to_realm_queues(
        queues,
        &mut flavor_cache,
        &ids,
        &processed_user_ids,
        &wide_message,
        &sender_queue_id,
        invite_only,
        &local_id,
        settings,
        Ghost(input),
        Ghost(start),
        Ghost(served),
    );
    proof {
        lemma_deliver_realm_outbox(
            served,
            start.infos,
            realm_queues(start, input),
            input,
            user_ids(recipients),
        );
    }
    outbox
}

} // verus!
