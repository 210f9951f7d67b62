//! The events that wait in a client's queue.

use std::sync::Arc;
use vstd::prelude::*;

use crate::message::{Message, MessageView};
use crate::notification_data::UserMessageNotificationsData;
use crate::text::text_view;
use crate::types::{MessageFlags, UserGroupId};

verus! {

/// Which offline notifications were sent for a message to a user.
#[derive(Clone, Copy, Debug, PartialEq, Eq, Structural)]
pub struct Notified {
    /// Written out only when true.
    pub push_notified: bool,
    /// Written out only when true.
    pub email_notified: bool,
}

impl Default for Notified {
    fn default() -> (r: Notified)
        ensures
            r == (Notified { push_notified: false, email_notified: false }),
    {
        Notified { push_notified: false, email_notified: false }
    }
}

/// Whether a flag is unset; such a flag is left out when an event is
/// written.
pub fn is_false(b: &bool) -> (r: bool)
    ensures
        r == !*b,
{
    !*b
}

/// What the server keeps with a message event for one of the users it was
/// sent to.
#[derive(Clone, Copy, Debug, PartialEq, Eq, Structural)]
pub struct MessageUserInternalData {
    pub user_notifications_data: UserMessageNotificationsData,
    pub mentioned_user_group_id: Option<UserGroupId>,
    pub notified: Notified,
}

/// An event in a client's queue.
#[derive(Debug)]
pub enum ClientEvent {
    Message {
        /// The payload, shared by all clients of one flavor.
        message: Arc<Message>,
        flags: MessageFlags,
        /// Left out when absent.
        internal_data: Option<MessageUserInternalData>,
        /// Left out when absent.
        local_message_id: Option<String>,
    },
}

/// What a `ClientEvent` holds.
pub enum ClientEventView {
    Message {
        message: MessageView,
        flags: Set<Seq<char>>,
        internal_data: Option<MessageUserInternalData>,
        local_message_id: Option<Seq<char>>,
    },
}

impl View for ClientEvent {
    type V = ClientEventView;

    open spec fn view(&self) -> ClientEventView {
        match self {
            ClientEvent::Message {
                message,
                flags,
                internal_data,
                local_message_id,
            } => ClientEventView::Message {
                message: message@,
                flags: flags@,
                internal_data: *internal_data,
                local_message_id: text_view(*local_message_id),
            },
        }
    }
}

impl Clone for ClientEvent {
    fn clone(&self) -> (r: ClientEvent)
        ensures
            r@ == self@,
    {
        match self {
            ClientEvent::Message {
                message,
                flags,
                internal_data,
                local_message_id,
            } => ClientEvent::Message {
                message: Arc::clone(message),
                flags: flags.clone(),
                internal_data: *internal_data,
                local_message_id: crate::text::clone_text(local_message_id),
            },
        }
    }
}

/// The views of a list of events.
pub open spec fn events_view(events: Seq<ClientEvent>) -> Seq<ClientEventView> {
    events.map_values(|e: ClientEvent| e@)
}

} // verus!
