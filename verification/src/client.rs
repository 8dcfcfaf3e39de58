//! What the protocol client hands to the event handlers, and what a handler
//! answers.
use vstd::prelude::*;

verus! {

/// Outcome of offering an event to a handler.
#[derive(Clone, Copy, Debug, PartialEq, Eq, Structural)]
pub enum Handled {
    /// The handler claimed the event; dispatch stops.
    Fully,
    /// The event is of no interest to the handler; dispatch continues.
    Skipped,
}

/// Quality of service of a subscription.
#[derive(Clone, Copy, Debug, PartialEq, Eq, Structural)]
pub enum QoS {
    AtMostOnce,
    AtLeastOnce,
    ExactlyOnce,
}

/// A subscription request: the topic filter and the requested quality of service.
#[derive(Clone, Debug, PartialEq, Eq)]
pub struct SubscribeTo {
    pub topic_filter: String,
    pub qos: QoS,
}

/// A change to the set of subscriptions that the client holds.
#[derive(Clone, Debug, PartialEq, Eq)]
pub enum SubscriptionUpdateEvent {
    Subscribe(SubscribeTo),
    Unsubscribe(String),
    RejectedByServer(String),
}

/// Why the client lost its connection. Handlers carry the reason along and
/// never decide on it.
#[derive(Clone, Debug, PartialEq, Eq)]
pub enum ConnectionError {
    /// The server closed the connection.
    ServerClosedConnection,
    /// Any other cause, by its description.
    Other(String),
}

/// A lifecycle notification from the protocol client.
#[derive(Clone, Debug, PartialEq, Eq)]
pub enum Event {
    /// The client established a connection to the server.
    NewConnection { reset_session: bool },
    /// The client lost its connection.
    Disconnected(ConnectionError),
    /// A message arrived on a subscribed topic.
    Publication { topic_name: String, payload: Vec<u8> },
    /// The set of subscriptions changed.
    SubscriptionUpdates(Vec<SubscriptionUpdateEvent>),
}

} // verus!
