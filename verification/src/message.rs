//! Messages as the backend sends them, and the payload that each client
//! receives.

use std::sync::Arc;
use vstd::prelude::*;

use crate::avatar::{avatar_field, get_avatar_field, AvatarSettings, AvatarSource};
use crate::text::text_view;
use crate::types::{MessageId, RealmId, UserId};

verus! {

/// Who may see the email address of a user.
#[derive(Clone, Copy, Debug, PartialEq, Eq, Structural)]
pub enum EmailAddressVisibility {
    Everyone,
    Members,
    Admins,
    Nobody,
    Moderators,
}

impl EmailAddressVisibility {
    /// The number that stands for the setting on the wire.
    pub open spec fn code(self) -> u8 {
        match self {
            EmailAddressVisibility::Everyone => 1,
            EmailAddressVisibility::Members => 2,
            EmailAddressVisibility::Admins => 3,
            EmailAddressVisibility::Nobody => 4,
            EmailAddressVisibility::Moderators => 5,
        }
    }

    /// The setting for which `code` stands, if any.
    pub open spec fn of_code(code: u8) -> Option<EmailAddressVisibility> {
        if code == 1 {
            Some(EmailAddressVisibility::Everyone)
        } else if code == 2 {
            Some(EmailAddressVisibility::Members)
        } else if code == 3 {
            Some(EmailAddressVisibility::Admins)
        } else if code == 4 {
            Some(EmailAddressVisibility::Nobody)
        } else if code == 5 {
            Some(EmailAddressVisibility::Moderators)
        } else {
            None
        }
    }

    /// The number that stands for the setting on the wire.
    pub fn to_code(&self) -> (r: u8)
        ensures
            r == self.code(),
    {
        match self {
            EmailAddressVisibility::Everyone => 1,
            EmailAddressVisibility::Members => 2,
            EmailAddressVisibility::Admins => 3,
            EmailAddressVisibility::Nobody => 4,
            EmailAddressVisibility::Moderators => 5,
        }
    }

    /// Reads the number that stands for a setting.
    pub fn from_code(code: u8) -> (r: Option<EmailAddressVisibility>)
        ensures
            r == Self::of_code(code),
    {
        match code {
            1 => Some(EmailAddressVisibility::Everyone),
            2 => Some(EmailAddressVisibility::Members),
            3 => Some(EmailAddressVisibility::Admins),
            4 => Some(EmailAddressVisibility::Nobody),
            5 => Some(EmailAddressVisibility::Moderators),
            _ => None,
        }
    }
}

/// Reading back the number of a visibility setting gives the setting.
pub proof fn law_visibility_code_round_trip(visibility: EmailAddressVisibility)
    ensures
        EmailAddressVisibility::of_code(visibility.code()) == Some(visibility),
{
}

/// The form in which the content of a payload is written.
#[derive(Clone, Copy, Debug, PartialEq, Eq, Structural)]
pub enum ContentType {
    /// Rendered HTML, `text/html`.
    Html,
    /// Markdown source, `text/x-markdown`.
    Markdown,
}

impl ContentType {
    /// The media type.
    pub open spec fn name(self) -> Seq<char> {
        match self {
            ContentType::Html => "text/html"@,
            ContentType::Markdown => "text/x-markdown"@,
        }
    }

    /// The media type.
    pub fn as_str(&self) -> (r: &'static str)
        ensures
            r@ == self.name(),
    {
        match self {
            ContentType::Html => "text/html",
            ContentType::Markdown => "text/x-markdown",
        }
    }
}

/// One of the users that a direct message goes to.
#[derive(Debug, PartialEq, Eq)]
pub struct UserDisplayRecipient {
    pub email: String,
    pub full_name: String,
    pub id: UserId,
    pub is_mirror_dummy: bool,
}

/// What a `UserDisplayRecipient` holds.
pub struct UserDisplayRecipientView {
    pub email: Seq<char>,
    pub full_name: Seq<char>,
    pub id: UserId,
    pub is_mirror_dummy: bool,
}

impl View for UserDisplayRecipient {
    type V = UserDisplayRecipientView;

    open spec fn view(&self) -> UserDisplayRecipientView {
        UserDisplayRecipientView {
            email: self.email@,
            full_name: self.full_name@,
            id: self.id,
            is_mirror_dummy: self.is_mirror_dummy,
        }
    }
}

impl Clone for UserDisplayRecipient {
    fn clone(&self) -> (r: UserDisplayRecipient)
        ensures
            r@ == self@,
    {
        UserDisplayRecipient {
            email: self.email.clone(),
            full_name: self.full_name.clone(),
            id: self.id,
            is_mirror_dummy: self.is_mirror_dummy,
        }
    }
}

/// To whom a message goes: the users of a direct message, or a stream and
/// a topic in it.
#[derive(Debug, PartialEq, Eq)]
#[allow(inconsistent_fields)]
pub enum MessageRecipient {
    Private { display_recipient: Vec<UserDisplayRecipient> },
    Stream { display_recipient: String, subject: String },
}

/// What a `MessageRecipient` holds.
#[allow(inconsistent_fields)]
pub enum MessageRecipientView {
    Private { display_recipient: Seq<UserDisplayRecipientView> },
    Stream { display_recipient: Seq<char>, subject: Seq<char> },
}

impl View for MessageRecipient {
    type V = MessageRecipientView;

    open spec fn view(&self) -> MessageRecipientView {
        match self {
            MessageRecipient::Private { display_recipient } => MessageRecipientView::Private {
                display_recipient: display_recipient@.map_values(|u: UserDisplayRecipient| u@),
            },
            MessageRecipient::Stream { display_recipient, subject } => MessageRecipientView::Stream {
                display_recipient: display_recipient@,
                subject: subject@,
            },
        }
    }
}

impl Clone for MessageRecipient {
    fn clone(&self) -> (r: MessageRecipient)
        ensures
            r@ == self@,
    {
        match self {
            MessageRecipient::Private { display_recipient } => {
                let mut users: Vec<UserDisplayRecipient> = Vec::new();
                let mut i: usize = 0;
                while i < display_recipient.len()
                    invariant
                        i <= display_recipient.len(),
                        users@.len() == i,
                        forall|j: int| 0 <= j < i ==> users@[j]@ == display_recipient@[j]@,
                    decreases display_recipient.len() - i,
                {
                    users.push(display_recipient[i].clone());
                    i += 1;
                }
                assert(users@.map_values(|u: UserDisplayRecipient| u@)
                    =~= display_recipient@.map_values(|u: UserDisplayRecipient| u@));
                MessageRecipient::Private { display_recipient: users }
            },
            MessageRecipient::Stream { display_recipient, subject } => MessageRecipient::Stream {
                display_recipient: display_recipient.clone(),
                subject: subject.clone(),
            },
        }
    }
}

impl MessageRecipient {
    /// Whether the message is a direct message.
    pub fn is_private(&self) -> (r: bool)
        ensures
            r == (self@ is Private),
    {
        match self {
            MessageRecipient::Private { .. } => true,
            MessageRecipient::Stream { .. } => false,
        }
    }
}

/// The attributes of a message that are forwarded as they came: each with
/// its name and the text of its value.
pub open spec fn attrs_view(attrs: Seq<(String, String)>) -> Seq<(Seq<char>, Seq<char>)> {
    attrs.map_values(|a: (String, String)| (a.0@, a.1@))
}

/// A copy of the forwarded attributes.
pub fn clone_attrs(attrs: &Vec<(String, String)>) -> (r: Vec<(String, String)>)
    ensures
        attrs_view(r@) == attrs_view(attrs@),
{
    let mut out: Vec<(String, String)> = Vec::new();
    let mut i: usize = 0;
    while i < attrs.len()
        invariant
            i <= attrs.len(),
            out@.len() == i,
            forall|j: int|
                0 <= j < i ==> out@[j].0@ == attrs@[j].0@ && out@[j].1@ == attrs@[j].1@,
        decreases attrs.len() - i,
    {
        out.push((attrs[i].0.clone(), attrs[i].1.clone()));
        i += 1;
    }
    assert(attrs_view(out@) =~= attrs_view(attrs@));
    out
}

/// The backend's full representation of a sent message.
#[derive(Debug, PartialEq, Eq)]
pub struct WideMessage {
    /// The attributes that the dispatcher does not read, kept for
    /// forwarding.
    pub attrs: Vec<(String, String)>,
    pub sender_email: String,
    /// Absent in events of old servers; the sender's email then stands for
    /// it.
    pub sender_delivery_email: Option<String>,
    pub sender_id: UserId,
    pub id: MessageId,
    /// The name of the client that sent the message.
    pub client: String,
    pub sender_email_address_visibility: EmailAddressVisibility,
    pub sender_realm_id: RealmId,
    pub sender_avatar_source: AvatarSource,
    pub sender_avatar_version: i32,
    /// The content as HTML.
    pub rendered_content: String,
    /// The content as Markdown source.
    pub content: String,
    pub recipient: MessageRecipient,
    pub recipient_type: i16,
    pub recipient_type_id: i32,
    pub sender_is_mirror_dummy: bool,
}

/// The payload that a client receives for a message.
#[derive(Debug, PartialEq, Eq)]
pub struct Message {
    pub attrs: Vec<(String, String)>,
    pub sender_email: String,
    pub sender_id: UserId,
    pub id: MessageId,
    pub client: String,
    /// Absent where the client computes the Gravatar URL itself.
    pub avatar_url: Option<String>,
    pub content_type: ContentType,
    pub rendered_content: Option<String>,
    pub content: String,
    pub recipient: MessageRecipient,
    /// Written out only when true.
    pub invite_only_stream: bool,
}

/// What a `Message` holds.
pub struct MessageView {
    pub attrs: Seq<(Seq<char>, Seq<char>)>,
    pub sender_email: Seq<char>,
    pub sender_id: UserId,
    pub id: MessageId,
    pub client: Seq<char>,
    pub avatar_url: Option<Seq<char>>,
    pub content_type: ContentType,
    pub rendered_content: Option<Seq<char>>,
    pub content: Seq<char>,
    pub recipient: MessageRecipientView,
    pub invite_only_stream: bool,
}

impl View for Message {
    type V = MessageView;

    open spec fn view(&self) -> MessageView {
        MessageView {
            attrs: attrs_view(self.attrs@),
            sender_email: self.sender_email@,
            sender_id: self.sender_id,
            id: self.id,
            client: self.client@,
            avatar_url: text_view(self.avatar_url),
            content_type: self.content_type,
            rendered_content: text_view(self.rendered_content),
            content: self.content@,
            recipient: self.recipient@,
            invite_only_stream: self.invite_only_stream,
        }
    }
}

/// The two choices of a client that decide how a message is written for it.
#[derive(Clone, Copy, Debug, PartialEq, Eq, Hash, Structural)]
pub struct MessageFlavor {
    /// The client wants the rendered HTML, not the Markdown source.
    pub apply_markdown: bool,
    /// The client computes Gravatar URLs itself.
    pub client_gravatar: bool,
}

/// Whether a payload leaves the Gravatar URL to the client: only where the
/// client asks for it and the sender's email address is visible to everyone,
/// since without the address no client can compute the hash.
pub open spec fn effective_client_gravatar(
    visibility: EmailAddressVisibility,
    client_gravatar: bool,
) -> bool {
    client_gravatar && visibility == EmailAddressVisibility::Everyone
}

impl WideMessage {
    /// The address to which the sender's mail goes: the delivery email, or
    /// the sender's email where that is absent.
    pub open spec fn delivery_email(&self) -> Seq<char> {
        match self.sender_delivery_email {
            Some(email) => email@,
            None => self.sender_email@,
        }
    }

    /// The payload for a client of the given flavor.
    pub open spec fn payload(
        &self,
        flavor: MessageFlavor,
        keep_rendered_content: bool,
        invite_only_stream: bool,
        settings: &AvatarSettings,
    ) -> MessageView {
        MessageView {
            attrs: attrs_view(self.attrs@),
            sender_email: self.sender_email@,
            sender_id: self.sender_id,
            id: self.id,
            client: self.client@,
            avatar_url: avatar_field(
                self.sender_id,
                self.sender_realm_id,
                self.delivery_email(),
                self.sender_avatar_source,
                self.sender_avatar_version,
                false,
                effective_client_gravatar(
                    self.sender_email_address_visibility,
                    flavor.client_gravatar,
                ),
                settings,
            ),
            content_type: if flavor.apply_markdown {
                ContentType::Html
            } else {
                ContentType::Markdown
            },
            rendered_content: if keep_rendered_content {
                Some(self.rendered_content@)
            } else {
                None
            },
            content: if flavor.apply_markdown {
                self.rendered_content@
            } else {
                self.content@
            },
            recipient: self.recipient@,
            invite_only_stream,
        }
    }

    /// The message with the delivery email filled in from the sender's
    /// email where it was absent.
    pub open spec fn backfilled(self) -> WideMessage {
        match self.sender_delivery_email {
            Some(email) => self,
            None => WideMessage { sender_delivery_email: Some(self.sender_email), ..self },
        }
    }

    /// Fills in the delivery email from the sender's email where it is
    /// absent, as it is in events of old servers.
    pub fn backfill_delivery_email(&mut self)
        ensures
            *final(self) == old(self).backfilled(),
            final(self).sender_delivery_email is Some,
    {
        if self.sender_delivery_email.is_none() {
            self.sender_delivery_email = Some(self.sender_email.clone());
        }
    }

    fn delivery_email_str(&self) -> (r: &str)
        ensures
            r@ == self.delivery_email(),
    {
        match &self.sender_delivery_email {
            Some(email) => email.as_str(),
            None => self.sender_email.as_str(),
        }
    }

    /// Writes the message for a client of the given flavor.
    pub fn finalize_payload(
        &self,
        flavor: &MessageFlavor,
        keep_rendered_content: bool,
        invite_only_stream: bool,
        settings: &AvatarSettings,
    ) -> (r: Message)
        ensures
            r@ == self.payload(*flavor, keep_rendered_content, invite_only_stream, settings),
    {
        // Where the sender's email address is not visible to everyone, no
        // client can compute the Gravatar hash, so the URL is computed here
        // whatever the client asked for.
        let client_gravatar = flavor.client_gravatar && self.sender_email_address_visibility
            == EmailAddressVisibility::Everyone;
        let avatar_url = get_avatar_field(
            self.sender_id,
            self.sender_realm_id,
            self.delivery_email_str(),
            self.sender_avatar_source,
            self.sender_avatar_version,
            false,
            client_gravatar,
            settings,
        );
        let (content_type, content) = if flavor.apply_markdown {
            (ContentType::Html, self.rendered_content.clone())
        } else {
            (ContentType::Markdown, self.content.clone())
        };
        let rendered_content = if keep_rendered_content {
            Some(self.rendered_content.clone())
        } else {
            None
        };
        Message {
            sender_email: self.sender_email.clone(),
            sender_id: self.sender_id,
            id: self.id,
            client: self.client.clone(),
            avatar_url,
            content_type,
            rendered_content,
            content,
            recipient: self.recipient.clone(),
            invite_only_stream,
            attrs: clone_attrs(&self.attrs),
        }
    }
}

/// In no payload of a message whose sender's email address is not visible to
/// everyone is the Gravatar URL left to the client: the payload is the one
/// of the flavor that computes the URL on the server.
pub proof fn law_hidden_email_forces_server_avatar(
    wide: &WideMessage,
    flavor: MessageFlavor,
    keep_rendered_content: bool,
    invite_only_stream: bool,
    settings: &AvatarSettings,
)
    requires
        wide.sender_email_address_visibility != EmailAddressVisibility::Everyone,
    ensures
        !effective_client_gravatar(wide.sender_email_address_visibility, flavor.client_gravatar),
        wide.payload(flavor, keep_rendered_content, invite_only_stream, settings) == wide.payload(
            MessageFlavor { apply_markdown: flavor.apply_markdown, client_gravatar: false },
            keep_rendered_content,
            invite_only_stream,
            settings,
        ),
{
}

/// The payloads that one fan-out has written so far, one for each flavor
/// that a client has asked for.
pub struct FlavorCache {
    html_client: Option<Arc<Message>>,
    html_server: Option<Arc<Message>>,
    markdown_client: Option<Arc<Message>>,
    markdown_server: Option<Arc<Message>>,
}

impl View for FlavorCache {
    type V = Map<MessageFlavor, MessageView>;

    closed spec fn view(&self) -> Map<MessageFlavor, MessageView> {
        Map::new(
            |flavor: MessageFlavor| self.slot(flavor) is Some,
            |flavor: MessageFlavor| self.slot(flavor)->0@,
        )
    }
}

impl FlavorCache {
    spec fn slot(&self, flavor: MessageFlavor) -> Option<Arc<Message>> {
        if flavor.apply_markdown {
            if flavor.client_gravatar {
                self.html_client
            } else {
                self.html_server
            }
        } else {
            if flavor.client_gravatar {
                self.markdown_client
            } else {
                self.markdown_server
            }
        }
    }

    /// The cache that holds no payload.
    pub fn new() -> (r: FlavorCache)
        ensures
            r@ == Map::<MessageFlavor, MessageView>::empty(),
    {
        let r = FlavorCache {
            html_client: None,
            html_server: None,
            markdown_client: None,
            markdown_server: None,
        };
        assert(r@ =~= Map::<MessageFlavor, MessageView>::empty());
        r
    }

    /// The payload written for `flavor`, if there is one.
    pub fn get(&self, flavor: &MessageFlavor) -> (r: Option<Arc<Message>>)
        ensures
            match r {
                Some(message) => self@.contains_key(*flavor) && self@[*flavor] == message@,
                None => !self@.contains_key(*flavor),
            },
    {
        let slot = if flavor.apply_markdown {
            if flavor.client_gravatar {
                &self.html_client
            } else {
                &self.html_server
            }
        } else {
            if flavor.client_gravatar {
                &self.markdown_client
            } else {
                &self.markdown_server
            }
        };
        match slot {
            Some(message) => Some(Arc::clone(message)),
            None => None,
        }
    }

    /// Keeps `message` as the payload of `flavor`.
    pub fn insert(&mut self, flavor: &MessageFlavor, message: Arc<Message>)
        ensures
            final(self)@ == old(self)@.insert(*flavor, message@),
    {
        if flavor.apply_markdown {
            if flavor.client_gravatar {
                self.html_client = Some(message);
            } else {
                self.html_server = Some(message);
            }
        } else {
            if flavor.client_gravatar {
                self.markdown_client = Some(message);
            } else {
                self.markdown_server = Some(message);
            }
        }
        assert(self@ =~= old(self)@.insert(*flavor, message@));
    }
}

} // verus!
