//! Narrows: the filters by which a queue picks the messages it accepts.

use vstd::prelude::*;

use crate::message::{Message, MessageRecipient, MessageRecipientView, MessageView};
use crate::text::{eq_ignore_case, is_prefix, lowercase, str_eq, str_starts_with};
use crate::types::MessageFlags;

verus! {

/// What a narrow term looks at.
#[derive(Clone, Copy, Debug, PartialEq, Eq, Structural)]
pub enum Operator {
    Stream,
    Topic,
    Sender,
    Is,
}

/// A conjunction of terms, each an operator and its operand.
pub type Narrow = Vec<(Operator, String)>;

/// What the topic of a resolved thread begins with: a check mark and a
/// space.
pub const RESOLVED_TOPIC_PREFIX: &'static str = "\u{2714} ";

/// Whether a message with the given flags meets one term. Names of streams,
/// topics and senders are compared without regard to case. An `is` term
/// with an operand that is not known holds of every message.
pub open spec fn term_matches(
    message: MessageView,
    flags: Set<Seq<char>>,
    operator: Operator,
    operand: Seq<char>,
) -> bool {
    match operator {
        Operator::Stream => match message.recipient {
            MessageRecipientView::Stream { display_recipient, subject } => lowercase(operand)
                == lowercase(display_recipient),
            MessageRecipientView::Private { display_recipient } => false,
        },
        Operator::Topic => match message.recipient {
            MessageRecipientView::Stream { display_recipient, subject } => lowercase(operand)
                == lowercase(subject),
            MessageRecipientView::Private { display_recipient } => false,
        },
        Operator::Sender => lowercase(operand) == lowercase(message.sender_email),
        Operator::Is => if operand == "dm"@ || operand == "private"@ {
            message.recipient is Private
        } else if operand == "starred"@ {
            flags.contains("starred"@)
        } else if operand == "unread"@ {
            !flags.contains("read"@)
        } else if operand == "alerted"@ || operand == "mentioned"@ {
            flags.contains("mentioned"@)
        } else if operand == "resolved"@ {
            match message.recipient {
                MessageRecipientView::Stream { display_recipient, subject } => is_prefix(
                    RESOLVED_TOPIC_PREFIX@,
                    subject,
                ),
                MessageRecipientView::Private { display_recipient } => false,
            }
        } else {
            true
        },
    }
}

/// Whether a message with the given flags meets every term of a narrow.
pub open spec fn narrow_matches(
    message: MessageView,
    flags: Set<Seq<char>>,
    narrow: Seq<(Operator, String)>,
) -> bool {
    forall|i: int|
        0 <= i < narrow.len() ==> term_matches(message, flags, (#[trigger] narrow[i]).0, narrow[i].1@)
}

fn matches_term(message: &Message, flags: &MessageFlags, operator: Operator, operand: &str) -> (r:
    bool)
    ensures
        r == term_matches(message@, flags@, operator, operand@),
{
    match operator {
        Operator::Stream => match &message.recipient {
            MessageRecipient::Stream { display_recipient, .. } => eq_ignore_case(
                operand,
                display_recipient.as_str(),
            ),
            _ => false,
        },
        Operator::Topic => match &message.recipient {
            MessageRecipient::Stream { subject, .. } => eq_ignore_case(operand, subject.as_str()),
            _ => false,
        },
        Operator::Sender => eq_ignore_case(operand, message.sender_email.as_str()),
        Operator::Is => {
            if str_eq(operand, "dm") || str_eq(operand, "private") {
                message.recipient.is_private()
            } else if str_eq(operand, "starred") {
                flags.contains("starred")
            } else if str_eq(operand, "unread") {
                !flags.contains("read")
            } else if str_eq(operand, "alerted") || str_eq(operand, "mentioned") {
                flags.contains("mentioned")
            } else if str_eq(operand, "resolved") {
                match &message.recipient {
                    MessageRecipient::Stream { subject, .. } => str_starts_with(
                        subject.as_str(),
                        RESOLVED_TOPIC_PREFIX,
                    ),
                    _ => false,
                }
            } else {
                true
            }
        },
    }
}

/// Whether `message`, with the flags it has for the user, meets every term
/// of `narrow`. Negated terms are not known here.
pub fn matches_narrow(message: &Message, flags: &MessageFlags, narrow: &Narrow) -> (r: bool)
    ensures
        r == narrow_matches(message@, flags@, narrow@),
{
    let mut i: usize = 0;
    while i < narrow.len()
        invariant
            i <= narrow.len(),
            forall|j: int|
                0 <= j < i ==> term_matches(
                    message@,
                    flags@,
                    (#[trigger] narrow@[j]).0,
                    narrow@[j].1@,
                ),
        decreases narrow.len() - i,
    {
        if !matches_term(message, flags, narrow[i].0, narrow[i].1.as_str()) {
            return false;
        }
        i += 1;
    }
    true
}

} // verus!
