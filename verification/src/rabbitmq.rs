//! The consumer of notices: how it is set up, and what it does with each
//! thing that happens to it. The connection itself is the caller's.

use vstd::prelude::*;
use vstd::string::*;

verus! {

/// How many deliveries may be in flight without an acknowledgment.
pub const PREFETCH_COUNT: u16 = 100;

/// The port of the broker.
pub const BROKER_PORT: u16 = 5672;

/// The virtual host of the broker.
pub const BROKER_VHOST: &'static str = "/";

/// The tag under which the consumer is known to the broker.
pub const CONSUMER_TAG: &'static str = "consumer";

/// The queue of mobile push notifications.
pub const MOBILE_NOTIFICATIONS_QUEUE: &'static str = "missedmessage_mobile_notifications";

/// The queue of missed-message emails.
pub const EMAIL_NOTIFICATIONS_QUEUE: &'static str = "missedmessage_emails";

/// The exchange to which envelopes are published: the default one, which
/// routes by the name of the queue.
pub const PUBLISH_EXCHANGE: &'static str = "";

/// The delivery mode of published envelopes: persistent.
pub const PERSISTENT_DELIVERY_MODE: u8 = 2;

/// A queue to declare.
#[derive(Debug)]
pub struct QueueDeclaration {
    pub name: String,
    /// The queue outlives a restart of the broker.
    pub durable: bool,
}

/// The queues that the service declares before it consumes, each durable:
/// the queue of notices, then the two queues of offline notifications.
pub fn queue_declarations(notify_queue: &str) -> (r: Vec<QueueDeclaration>)
    ensures
        r@.len() == 3,
        forall|i: int| 0 <= i < 3 ==> (#[trigger] r@[i]).durable,
        r@[0].name@ == notify_queue@,
        r@[1].name@ == MOBILE_NOTIFICATIONS_QUEUE@,
        r@[2].name@ == EMAIL_NOTIFICATIONS_QUEUE@,
{
    let mut queues: Vec<QueueDeclaration> = Vec::new();
    queues.push(QueueDeclaration { name: String::from_str(notify_queue), durable: true });
    queues.push(
        QueueDeclaration { name: String::from_str(MOBILE_NOTIFICATIONS_QUEUE), durable: true },
    );
    queues.push(
        QueueDeclaration { name: String::from_str(EMAIL_NOTIFICATIONS_QUEUE), durable: true },
    );
    queues
}

/// Where the consumer stands.
#[derive(Clone, Copy, Debug, PartialEq, Eq, Structural)]
pub enum ConsumerState {
    /// It waits for a delivery or for the shutdown.
    Waiting,
    /// The notice of a delivery is being processed.
    Processing { delivery_tag: u64 },
    /// The acknowledgment of a delivery is on its way.
    Acknowledging { delivery_tag: u64 },
    /// The loop has ended.
    Stopped,
}

/// What happens to the consumer.
#[derive(Clone, Copy, Debug, PartialEq, Eq, Structural)]
pub enum ConsumerEvent {
    /// The shutdown latch was tripped.
    Shutdown,
    /// The stream of deliveries has ended.
    Closed,
    /// The stream of deliveries gave an error.
    TransportError,
    /// A delivery came.
    Delivery { delivery_tag: u64 },
    /// The notice was read and processed, or one of the two failed.
    Processed { ok: bool },
    /// The acknowledgment was sent, or could not be.
    Acknowledged { ok: bool },
}

/// What the consumer does next.
#[derive(Clone, Copy, Debug, PartialEq, Eq, Structural)]
pub enum ConsumerAction {
    /// Wait for the next delivery or for the shutdown.
    Wait,
    /// Read the notice of the delivery and process it.
    Process { delivery_tag: u64 },
    /// Acknowledge the delivery.
    Acknowledge { delivery_tag: u64 },
    /// Leave the loop without an error; `closed` says that the connection
    /// went away, which is worth a warning.
    Exit { closed: bool },
    /// Leave the loop with the error that occurred.
    Fail,
}

/// The step of the consumer. A delivery is acknowledged once its notice is
/// processed, and not otherwise. The shutdown ends the loop while it
/// waits; what is in flight then is not acknowledged and will be delivered
/// again. Any failure ends the loop with an error.
pub open spec fn consumer_transition(state: ConsumerState, event: ConsumerEvent) -> (
    ConsumerState,
    ConsumerAction,
) {
    match (state, event) {
        (ConsumerState::Waiting, ConsumerEvent::Shutdown) => (
            ConsumerState::Stopped,
            ConsumerAction::Exit { closed: false },
        ),
        (ConsumerState::Waiting, ConsumerEvent::Closed) => (
            ConsumerState::Stopped,
            ConsumerAction::Exit { closed: true },
        ),
        (ConsumerState::Waiting, ConsumerEvent::Delivery { delivery_tag }) => (
            ConsumerState::Processing { delivery_tag },
            ConsumerAction::Process { delivery_tag },
        ),
        (ConsumerState::Processing { delivery_tag }, ConsumerEvent::Processed { ok }) => if ok {
            (
                ConsumerState::Acknowledging { delivery_tag },
                ConsumerAction::Acknowledge { delivery_tag },
            )
        } else {
            (ConsumerState::Stopped, ConsumerAction::Fail)
        },
        (ConsumerState::Acknowledging { delivery_tag }, ConsumerEvent::Acknowledged { ok }) => if ok {
            (ConsumerState::Waiting, ConsumerAction::Wait)
        } else {
            (ConsumerState::Stopped, ConsumerAction::Fail)
        },
        _ => (ConsumerState::Stopped, ConsumerAction::Fail),
    }
}

/// Takes what has happened and says what the consumer does next.
pub fn consumer_step(state: ConsumerState, event: ConsumerEvent) -> (r: (
    ConsumerState,
    ConsumerAction,
))
    ensures
        r == consumer_transition(state, event),
{
    match (state, event) {
        (ConsumerState::Waiting, ConsumerEvent::Shutdown) => (
            ConsumerState::Stopped,
            ConsumerAction::Exit { closed: false },
        ),
        (ConsumerState::Waiting, ConsumerEvent::Closed) => (
            ConsumerState::Stopped,
            ConsumerAction::Exit { closed: true },
        ),
        (ConsumerState::Waiting, ConsumerEvent::Delivery { delivery_tag }) => (
            ConsumerState::Processing { delivery_tag },
            ConsumerAction::Process { delivery_tag },
        ),
        (ConsumerState::Processing { delivery_tag }, ConsumerEvent::Processed { ok }) => {
            if ok {
                (
                    ConsumerState::Acknowledging { delivery_tag },
                    ConsumerAction::Acknowledge { delivery_tag },
                )
            } else {
                (ConsumerState::Stopped, ConsumerAction::Fail)
            }
        },
        (ConsumerState::Acknowledging { delivery_tag }, ConsumerEvent::Acknowledged { ok }) => {
            if ok {
                (ConsumerState::Waiting, ConsumerAction::Wait)
            } else {
                (ConsumerState::Stopped, ConsumerAction::Fail)
            }
        },
        _ => (ConsumerState::Stopped, ConsumerAction::Fail),
    }
}

/// A delivery is acknowledged only after its notice was processed: the
/// consumer acknowledges only in answer to a processing that went well,
/// and then the very delivery that was processed.
pub proof fn law_acknowledge_only_what_was_processed(
    state: ConsumerState,
    event: ConsumerEvent,
    delivery_tag: u64,
)
    requires
        consumer_transition(state, event).1 == (ConsumerAction::Acknowledge { delivery_tag }),
    ensures
        state == (ConsumerState::Processing { delivery_tag }),
        event == (ConsumerEvent::Processed { ok: true }),
{
}

/// Once stopped, the consumer stays stopped.
pub proof fn law_stopped_is_final(event: ConsumerEvent)
    ensures
        consumer_transition(ConsumerState::Stopped, event).0 == ConsumerState::Stopped,
{
}

} // verus!
