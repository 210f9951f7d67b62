//! Per-user notifiability of a message, and the reason for which a push or
//! email notification is sent.

use std::collections::HashSet;
use vstd::prelude::*;

use crate::types::{MessageFlags, UserId};

verus! {

broadcast use vstd::std_specs::hash::group_hash_axioms;

/// Every notifiability dimension of one message for one user.
#[derive(Clone, Copy, Debug, PartialEq, Eq, Structural)]
pub struct UserMessageNotificationsData {
    pub user_id: UserId,
    pub online_push_enabled: bool,
    pub dm_email_notify: bool,
    pub dm_push_notify: bool,
    pub mention_email_notify: bool,
    pub mention_push_notify: bool,
    pub topic_wildcard_mention_email_notify: bool,
    pub topic_wildcard_mention_push_notify: bool,
    pub stream_wildcard_mention_email_notify: bool,
    pub stream_wildcard_mention_push_notify: bool,
    pub stream_push_notify: bool,
    pub stream_email_notify: bool,
    pub followed_topic_push_notify: bool,
    pub followed_topic_email_notify: bool,
    pub topic_wildcard_mention_in_followed_topic_push_notify: bool,
    pub topic_wildcard_mention_in_followed_topic_email_notify: bool,
    pub stream_wildcard_mention_in_followed_topic_push_notify: bool,
    pub stream_wildcard_mention_in_followed_topic_email_notify: bool,
    pub sender_is_muted: bool,
    pub disable_external_notifications: bool,
}

/// The membership sets and scalars that accompany a message event.
pub struct UserIdSets {
    pub private_message: bool,
    pub disable_external_notifications: bool,
    pub online_push_user_ids: HashSet<UserId>,
    pub dm_mention_push_disabled_user_ids: HashSet<UserId>,
    pub dm_mention_email_disabled_user_ids: HashSet<UserId>,
    pub stream_push_user_ids: HashSet<UserId>,
    pub stream_email_user_ids: HashSet<UserId>,
    pub topic_wildcard_mention_user_ids: HashSet<UserId>,
    pub stream_wildcard_mention_user_ids: HashSet<UserId>,
    pub followed_topic_push_user_ids: HashSet<UserId>,
    pub followed_topic_email_user_ids: HashSet<UserId>,
    pub topic_wildcard_mention_in_followed_topic_user_ids: HashSet<UserId>,
    pub stream_wildcard_mention_in_followed_topic_user_ids: HashSet<UserId>,
    pub muted_sender_user_ids: HashSet<UserId>,
    pub all_bot_user_ids: HashSet<UserId>,
}

/// What a `UserIdSets` holds.
pub struct UserIdSetsView {
    pub private_message: bool,
    pub disable_external_notifications: bool,
    pub online_push_user_ids: Set<UserId>,
    pub dm_mention_push_disabled_user_ids: Set<UserId>,
    pub dm_mention_email_disabled_user_ids: Set<UserId>,
    pub stream_push_user_ids: Set<UserId>,
    pub stream_email_user_ids: Set<UserId>,
    pub topic_wildcard_mention_user_ids: Set<UserId>,
    pub stream_wildcard_mention_user_ids: Set<UserId>,
    pub followed_topic_push_user_ids: Set<UserId>,
    pub followed_topic_email_user_ids: Set<UserId>,
    pub topic_wildcard_mention_in_followed_topic_user_ids: Set<UserId>,
    pub stream_wildcard_mention_in_followed_topic_user_ids: Set<UserId>,
    pub muted_sender_user_ids: Set<UserId>,
    pub all_bot_user_ids: Set<UserId>,
}

impl View for UserIdSets {
    type V = UserIdSetsView;

    open spec fn view(&self) -> UserIdSetsView {
        UserIdSetsView {
            private_message: self.private_message,
            disable_external_notifications: self.disable_external_notifications,
            online_push_user_ids: self.online_push_user_ids@,
            dm_mention_push_disabled_user_ids: self.dm_mention_push_disabled_user_ids@,
            dm_mention_email_disabled_user_ids: self.dm_mention_email_disabled_user_ids@,
            stream_push_user_ids: self.stream_push_user_ids@,
            stream_email_user_ids: self.stream_email_user_ids@,
            topic_wildcard_mention_user_ids: self.topic_wildcard_mention_user_ids@,
            stream_wildcard_mention_user_ids: self.stream_wildcard_mention_user_ids@,
            followed_topic_push_user_ids: self.followed_topic_push_user_ids@,
            followed_topic_email_user_ids: self.followed_topic_email_user_ids@,
            topic_wildcard_mention_in_followed_topic_user_ids: self.topic_wildcard_mention_in_followed_topic_user_ids@,
            stream_wildcard_mention_in_followed_topic_user_ids: self.stream_wildcard_mention_in_followed_topic_user_ids@,
            muted_sender_user_ids: self.muted_sender_user_ids@,
            all_bot_user_ids: self.all_bot_user_ids@,
        }
    }
}

/// The reason for which a notification is sent, most salient first within
/// each of the push and email orders.
#[derive(Clone, Copy, Debug, PartialEq, Eq, Structural)]
pub enum NotificationTrigger {
    /// A 1:1 or group direct message.
    DirectMessage,
    Mentioned,
    TopicWildcardMentioned,
    StreamWildcardMentioned,
    StreamPushNotify,
    StreamEmailNotify,
    FollowedTopicPushNotify,
    FollowedTopicEmailNotify,
    TopicWildcardMentionedInFollowedTopic,
    StreamWildcardMentionedInFollowedTopic,
}

impl NotificationTrigger {
    /// The name under which the trigger is written in an envelope.
    pub open spec fn name(self) -> Seq<char> {
        match self {
            NotificationTrigger::DirectMessage => "direct_message"@,
            NotificationTrigger::Mentioned => "mentioned"@,
            NotificationTrigger::TopicWildcardMentioned => "topic_wildcard_mentioned"@,
            NotificationTrigger::StreamWildcardMentioned => "stream_wildcard_mentioned"@,
            NotificationTrigger::StreamPushNotify => "stream_push_notify"@,
            NotificationTrigger::StreamEmailNotify => "stream_email_notify"@,
            NotificationTrigger::FollowedTopicPushNotify => "followed_topic_push_notify"@,
            NotificationTrigger::FollowedTopicEmailNotify => "followed_topic_email_notify"@,
            NotificationTrigger::TopicWildcardMentionedInFollowedTopic => "topic_wildcard_mentioned_in_followed_topic"@,
            NotificationTrigger::StreamWildcardMentionedInFollowedTopic => "stream_wildcard_mentioned_in_followed_topic"@,
        }
    }

    /// The name under which the trigger is written in an envelope.
    pub fn as_str(&self) -> (r: &'static str)
        ensures
            r@ == self.name(),
    {
        match self {
            NotificationTrigger::DirectMessage => "direct_message",
            NotificationTrigger::Mentioned => "mentioned",
            NotificationTrigger::TopicWildcardMentioned => "topic_wildcard_mentioned",
            NotificationTrigger::StreamWildcardMentioned => "stream_wildcard_mentioned",
            NotificationTrigger::StreamPushNotify => "stream_push_notify",
            NotificationTrigger::StreamEmailNotify => "stream_email_notify",
            NotificationTrigger::FollowedTopicPushNotify => "followed_topic_push_notify",
            NotificationTrigger::FollowedTopicEmailNotify => "followed_topic_email_notify",
            NotificationTrigger::TopicWildcardMentionedInFollowedTopic => "topic_wildcard_mentioned_in_followed_topic",
            NotificationTrigger::StreamWildcardMentionedInFollowedTopic => "stream_wildcard_mentioned_in_followed_topic",
        }
    }
}

impl UserMessageNotificationsData {
    /// The record in which nothing is notifiable.
    pub open spec fn silent(user_id: UserId) -> UserMessageNotificationsData {
        UserMessageNotificationsData {
            user_id,
            online_push_enabled: false,
            dm_email_notify: false,
            dm_push_notify: false,
            mention_email_notify: false,
            mention_push_notify: false,
            topic_wildcard_mention_email_notify: false,
            topic_wildcard_mention_push_notify: false,
            stream_wildcard_mention_email_notify: false,
            stream_wildcard_mention_push_notify: false,
            stream_push_notify: false,
            stream_email_notify: false,
            followed_topic_push_notify: false,
            followed_topic_email_notify: false,
            topic_wildcard_mention_in_followed_topic_push_notify: false,
            topic_wildcard_mention_in_followed_topic_email_notify: false,
            stream_wildcard_mention_in_followed_topic_push_notify: false,
            stream_wildcard_mention_in_followed_topic_email_notify: false,
            sender_is_muted: false,
            disable_external_notifications: false,
        }
    }

    /// What `from_user_id_sets` derives: nothing for a bot; for anyone else
    /// each field from the flags and from membership in the sets.
    pub open spec fn derived(
        user_id: UserId,
        flags: Set<Seq<char>>,
        sets: UserIdSetsView,
    ) -> UserMessageNotificationsData {
        if sets.all_bot_user_ids.contains(user_id) {
            Self::silent(user_id)
        } else {
            let email_ok = !sets.dm_mention_email_disabled_user_ids.contains(user_id);
            let push_ok = !sets.dm_mention_push_disabled_user_ids.contains(user_id);
            let mentioned = flags.contains("mentioned"@);
            let wildcard = flags.contains("wildcard_mentioned"@);
            let topic_wildcard = sets.topic_wildcard_mention_user_ids.contains(user_id);
            let stream_wildcard = sets.stream_wildcard_mention_user_ids.contains(user_id);
            let topic_wildcard_followed =
                sets.topic_wildcard_mention_in_followed_topic_user_ids.contains(user_id);
            let stream_wildcard_followed =
                sets.stream_wildcard_mention_in_followed_topic_user_ids.contains(user_id);
            UserMessageNotificationsData {
                user_id,
                online_push_enabled: sets.online_push_user_ids.contains(user_id),
                dm_email_notify: email_ok && sets.private_message,
                dm_push_notify: push_ok && sets.private_message,
                mention_email_notify: email_ok && mentioned,
                mention_push_notify: push_ok && mentioned,
                topic_wildcard_mention_email_notify: topic_wildcard && email_ok && wildcard,
                topic_wildcard_mention_push_notify: topic_wildcard && push_ok && wildcard,
                stream_wildcard_mention_email_notify: stream_wildcard && email_ok && wildcard,
                stream_wildcard_mention_push_notify: stream_wildcard && push_ok && wildcard,
                stream_push_notify: sets.stream_push_user_ids.contains(user_id),
                stream_email_notify: sets.stream_email_user_ids.contains(user_id),
                followed_topic_push_notify: sets.followed_topic_push_user_ids.contains(user_id),
                followed_topic_email_notify: sets.followed_topic_email_user_ids.contains(user_id),
                topic_wildcard_mention_in_followed_topic_push_notify: topic_wildcard_followed
                    && push_ok && wildcard,
                topic_wildcard_mention_in_followed_topic_email_notify: topic_wildcard_followed
                    && email_ok && wildcard,
                stream_wildcard_mention_in_followed_topic_push_notify: stream_wildcard_followed
                    && push_ok && wildcard,
                stream_wildcard_mention_in_followed_topic_email_notify: stream_wildcard_followed
                    && email_ok && wildcard,
                sender_is_muted: sets.muted_sender_user_ids.contains(user_id),
                disable_external_notifications: sets.disable_external_notifications,
            }
        }
    }

    /// Derives the notifiability of a message for `user_id` from the user's
    /// flags on it and from the sets that came with the event.
    pub fn from_user_id_sets(
        user_id: UserId,
        flags: &MessageFlags,
        sets: &UserIdSets,
    ) -> (r: UserMessageNotificationsData)
        ensures
            r == Self::derived(user_id, flags@, sets@),
    {
        if sets.all_bot_user_ids.contains(&user_id) {
            UserMessageNotificationsData {
                user_id,
                online_push_enabled: false,
                dm_email_notify: false,
                dm_push_notify: false,
                mention_email_notify: false,
                mention_push_notify: false,
                topic_wildcard_mention_email_notify: false,
                topic_wildcard_mention_push_notify: false,
                stream_wildcard_mention_email_notify: false,
                stream_wildcard_mention_push_notify: false,
                stream_push_notify: false,
                stream_email_notify: false,
                followed_topic_push_notify: false,
                followed_topic_email_notify: false,
                topic_wildcard_mention_in_followed_topic_push_notify: false,
                topic_wildcard_mention_in_followed_topic_email_notify: false,
                stream_wildcard_mention_in_followed_topic_push_notify: false,
                stream_wildcard_mention_in_followed_topic_email_notify: false,
                sender_is_muted: false,
                disable_external_notifications: false,
            }
        } else {
            // The wildcard sets hold the users for whom a wildcard mention
            // obeys the settings for personal mentions, so each of them only
            // wraps the flag and is no setting of its own.
            let email_ok = !sets.dm_mention_email_disabled_user_ids.contains(&user_id);
            let push_ok = !sets.dm_mention_push_disabled_user_ids.contains(&user_id);
            let mentioned = flags.contains("mentioned");
            let wildcard = flags.contains("wildcard_mentioned");
            let topic_wildcard = sets.topic_wildcard_mention_user_ids.contains(&user_id);
            let stream_wildcard = sets.stream_wildcard_mention_user_ids.contains(&user_id);
            let topic_wildcard_followed =
                sets.topic_wildcard_mention_in_followed_topic_user_ids.contains(&user_id);
            let stream_wildcard_followed =
                sets.stream_wildcard_mention_in_followed_topic_user_ids.contains(&user_id);
            UserMessageNotificationsData {
                user_id,
                online_push_enabled: sets.online_push_user_ids.contains(&user_id),
                dm_email_notify: email_ok && sets.private_message,
                dm_push_notify: push_ok && sets.private_message,
                mention_email_notify: email_ok && mentioned,
                mention_push_notify: push_ok && mentioned,
                topic_wildcard_mention_email_notify: topic_wildcard && email_ok && wildcard,
                topic_wildcard_mention_push_notify: topic_wildcard && push_ok && wildcard,
                stream_wildcard_mention_email_notify: stream_wildcard && email_ok && wildcard,
                stream_wildcard_mention_push_notify: stream_wildcard && push_ok && wildcard,
                stream_push_notify: sets.stream_push_user_ids.contains(&user_id),
                stream_email_notify: sets.stream_email_user_ids.contains(&user_id),
                followed_topic_push_notify: sets.followed_topic_push_user_ids.contains(&user_id),
                followed_topic_email_notify: sets.followed_topic_email_user_ids.contains(&user_id),
                topic_wildcard_mention_in_followed_topic_push_notify: topic_wildcard_followed
                    && push_ok && wildcard,
                topic_wildcard_mention_in_followed_topic_email_notify: topic_wildcard_followed
                    && email_ok && wildcard,
                stream_wildcard_mention_in_followed_topic_push_notify: stream_wildcard_followed
                    && push_ok && wildcard,
                stream_wildcard_mention_in_followed_topic_email_notify: stream_wildcard_followed
                    && email_ok && wildcard,
                sender_is_muted: sets.muted_sender_user_ids.contains(&user_id),
                disable_external_notifications: sets.disable_external_notifications,
            }
        }
    }

    /// A reason not to notify that holds whatever the user's settings are:
    /// the user acted themselves, has muted the sender, or the event
    /// disables external notifications.
    pub open spec fn trivially_silent(self, acting_user_id: UserId) -> bool {
        self.user_id == acting_user_id || self.sender_is_muted
            || self.disable_external_notifications
    }

    /// The first push reason that applies, in the order of salience.
    pub open spec fn push_reason(self) -> Option<NotificationTrigger> {
        if self.dm_push_notify {
            Some(NotificationTrigger::DirectMessage)
        } else if self.mention_push_notify {
            Some(NotificationTrigger::Mentioned)
        } else if self.topic_wildcard_mention_in_followed_topic_push_notify {
            Some(NotificationTrigger::TopicWildcardMentionedInFollowedTopic)
        } else if self.stream_wildcard_mention_in_followed_topic_push_notify {
            Some(NotificationTrigger::StreamWildcardMentionedInFollowedTopic)
        } else if self.topic_wildcard_mention_push_notify {
            Some(NotificationTrigger::TopicWildcardMentioned)
        } else if self.stream_wildcard_mention_push_notify {
            Some(NotificationTrigger::StreamWildcardMentioned)
        } else if self.followed_topic_push_notify {
            Some(NotificationTrigger::FollowedTopicPushNotify)
        } else if self.stream_push_notify {
            Some(NotificationTrigger::StreamPushNotify)
        } else {
            None
        }
    }

    /// The first email reason that applies, in the order of salience.
    pub open spec fn email_reason(self) -> Option<NotificationTrigger> {
        if self.dm_email_notify {
            Some(NotificationTrigger::DirectMessage)
        } else if self.mention_email_notify {
            Some(NotificationTrigger::Mentioned)
        } else if self.topic_wildcard_mention_in_followed_topic_email_notify {
            Some(NotificationTrigger::TopicWildcardMentionedInFollowedTopic)
        } else if self.stream_wildcard_mention_in_followed_topic_email_notify {
            Some(NotificationTrigger::StreamWildcardMentionedInFollowedTopic)
        } else if self.topic_wildcard_mention_email_notify {
            Some(NotificationTrigger::TopicWildcardMentioned)
        } else if self.stream_wildcard_mention_email_notify {
            Some(NotificationTrigger::StreamWildcardMentioned)
        } else if self.followed_topic_email_notify {
            Some(NotificationTrigger::FollowedTopicEmailNotify)
        } else if self.stream_email_notify {
            Some(NotificationTrigger::StreamEmailNotify)
        } else {
            None
        }
    }

    /// The push trigger: none for a user who is neither idle nor has online
    /// push enabled, none where `trivially_silent` holds, else the first
    /// push reason.
    pub open spec fn push_trigger(self, acting_user_id: UserId, idle: bool) -> Option<
        NotificationTrigger,
    > {
        if (!idle && !self.online_push_enabled) || self.trivially_silent(acting_user_id) {
            None
        } else {
            self.push_reason()
        }
    }

    /// The email trigger: none for a user who is not idle, none where
    /// `trivially_silent` holds, else the first email reason.
    pub open spec fn email_trigger(self, acting_user_id: UserId, idle: bool) -> Option<
        NotificationTrigger,
    > {
        if !idle || self.trivially_silent(acting_user_id) {
            None
        } else {
            self.email_reason()
        }
    }

    /// Whether a push or an email notification is owed.
    pub open spec fn notifiable(self, acting_user_id: UserId, idle: bool) -> bool {
        self.email_trigger(acting_user_id, idle) is Some || self.push_trigger(
            acting_user_id,
            idle,
        ) is Some
    }

    // In what follows `acting_user_id` is the user who sent or edited the
    // message for which notifiability is asked.

    /// Common check for reasons not to notify that do not depend on the
    /// user's notification settings, and so not on the kind of notification.
    pub fn trivially_should_not_notify(&self, acting_user_id: UserId) -> (r: bool)
        ensures
            r == self.trivially_silent(acting_user_id),
    {
        self.user_id == acting_user_id || self.sender_is_muted
            || self.disable_external_notifications
    }

    /// Whether a push or an email notification is owed.
    pub fn is_notifiable(&self, acting_user_id: UserId, idle: bool) -> (r: bool)
        ensures
            r == self.notifiable(acting_user_id, idle),
    {
        self.is_email_notifiable(acting_user_id, idle) || self.is_push_notifiable(
            acting_user_id,
            idle,
        )
    }

    /// Whether a push notification is owed.
    pub fn is_push_notifiable(&self, acting_user_id: UserId, idle: bool) -> (r: bool)
        ensures
            r == self.push_trigger(acting_user_id, idle) is Some,
    {
        self.get_push_notification_trigger(acting_user_id, idle).is_some()
    }

    /// The reason for a push notification, if one is owed.
    pub fn get_push_notification_trigger(&self, acting_user_id: UserId, idle: bool) -> (r: Option<
        NotificationTrigger,
    >)
        ensures
            r == self.push_trigger(acting_user_id, idle),
    {
        if (!idle && !self.online_push_enabled) || self.trivially_should_not_notify(
            acting_user_id,
        ) {
            None
        }
        // The order matters: where a mention and a stream subscription both
        // apply, the mention is the more salient reason.
         else if self.dm_push_notify {
            Some(NotificationTrigger::DirectMessage)
        } else if self.mention_push_notify {
            Some(NotificationTrigger::Mentioned)
        } else if self.topic_wildcard_mention_in_followed_topic_push_notify {
            Some(NotificationTrigger::TopicWildcardMentionedInFollowedTopic)
        } else if self.stream_wildcard_mention_in_followed_topic_push_notify {
            Some(NotificationTrigger::StreamWildcardMentionedInFollowedTopic)
        } else if self.topic_wildcard_mention_push_notify {
            Some(NotificationTrigger::TopicWildcardMentioned)
        } else if self.stream_wildcard_mention_push_notify {
            Some(NotificationTrigger::StreamWildcardMentioned)
        } else if self.followed_topic_push_notify {
            Some(NotificationTrigger::FollowedTopicPushNotify)
        } else if self.stream_push_notify {
            Some(NotificationTrigger::StreamPushNotify)
        } else {
            None
        }
    }

    /// Whether an email notification is owed.
    pub fn is_email_notifiable(&self, acting_user_id: UserId, idle: bool) -> (r: bool)
        ensures
            r == self.email_trigger(acting_user_id, idle) is Some,
    {
        self.get_email_notification_trigger(acting_user_id, idle).is_some()
    }

    /// The reason for an email notification, if one is owed.
    pub fn get_email_notification_trigger(&self, acting_user_id: UserId, idle: bool) -> (r: Option<
        NotificationTrigger,
    >)
        ensures
            r == self.email_trigger(acting_user_id, idle),
    {
        if !idle || self.trivially_should_not_notify(acting_user_id) {
            None
        }
        // The order matters, as for push.
         else if self.dm_email_notify {
            Some(NotificationTrigger::DirectMessage)
        } else if self.mention_email_notify {
            Some(NotificationTrigger::Mentioned)
        } else if self.topic_wildcard_mention_in_followed_topic_email_notify {
            Some(NotificationTrigger::TopicWildcardMentionedInFollowedTopic)
        } else if self.stream_wildcard_mention_in_followed_topic_email_notify {
            Some(NotificationTrigger::StreamWildcardMentionedInFollowedTopic)
        } else if self.topic_wildcard_mention_email_notify {
            Some(NotificationTrigger::TopicWildcardMentioned)
        } else if self.stream_wildcard_mention_email_notify {
            Some(NotificationTrigger::StreamWildcardMentioned)
        } else if self.followed_topic_email_notify {
            Some(NotificationTrigger::FollowedTopicEmailNotify)
        } else if self.stream_email_notify {
            Some(NotificationTrigger::StreamEmailNotify)
        } else {
            None
        }
    }
}

/// A bot is never notified: every notifiability field derived for a user in
/// `all_bot_user_ids` is false, and so neither trigger exists, whoever acted
/// and whether or not the bot counts as idle.
pub proof fn law_bots_are_never_notified(
    user_id: UserId,
    flags: Set<Seq<char>>,
    sets: UserIdSetsView,
    acting_user_id: UserId,
    idle: bool,
)
    requires
        sets.all_bot_user_ids.contains(user_id),
    ensures
        UserMessageNotificationsData::derived(user_id, flags, sets)
            == UserMessageNotificationsData::silent(user_id),
        UserMessageNotificationsData::derived(user_id, flags, sets).push_trigger(
            acting_user_id,
            idle,
        ) is None,
        UserMessageNotificationsData::derived(user_id, flags, sets).email_trigger(
            acting_user_id,
            idle,
        ) is None,
{
}

/// Nobody is notified of their own action: with the user as the acting
/// user there is neither a push nor an email trigger.
pub proof fn law_no_self_notification(data: UserMessageNotificationsData, idle: bool)
    ensures
        data.push_trigger(data.user_id, idle) is None,
        data.email_trigger(data.user_id, idle) is None,
        !data.notifiable(data.user_id, idle),
{
}

/// A user who is not idle gets no email.
pub proof fn law_no_email_unless_idle(data: UserMessageNotificationsData, acting_user_id: UserId)
    ensures
        data.email_trigger(acting_user_id, false) is None,
{
}

/// A user who is not idle and has not enabled online push gets no push.
pub proof fn law_no_push_when_online_without_online_push(
    data: UserMessageNotificationsData,
    acting_user_id: UserId,
)
    requires
        !data.online_push_enabled,
    ensures
        data.push_trigger(acting_user_id, false) is None,
{
}

/// Being idle never takes a notification away: whatever is owed to a user
/// who is not idle is owed to the same user when idle.
pub proof fn law_idle_is_the_most_notifiable(
    data: UserMessageNotificationsData,
    acting_user_id: UserId,
    idle: bool,
)
    ensures
        data.notifiable(acting_user_id, idle) ==> data.notifiable(acting_user_id, true),
        data.push_trigger(acting_user_id, idle) is Some ==> data.push_trigger(acting_user_id, true)
            == data.push_trigger(acting_user_id, idle),
{
}

} // verus!
