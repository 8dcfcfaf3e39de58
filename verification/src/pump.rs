//! The values that travel on the pump, the queue between the event handlers
//! and the loop that consumes their messages.
use vstd::prelude::*;

verus! {

/// The sending half of tokio's bounded channel, `tokio::sync::mpsc::Sender`.
/// Nothing is claimed of it: the library stores it and hands it out, and
/// never sends through it.
#[verifier::external_type_specification]
#[verifier::external_body]
#[verifier::reject_recursive_types(T)]
pub struct ExSender<T>(tokio::sync::mpsc::Sender<T>);

/// `Clone::clone` of `tokio::sync::mpsc::Sender`: it gives another sender for
/// the same channel. Nothing is claimed of the result.
pub assume_specification<T>[ <tokio::sync::mpsc::Sender<T> as Clone>::clone ](
    sender: &tokio::sync::mpsc::Sender<T>,
) -> (other: tokio::sync::mpsc::Sender<T>)
;

/// Whether the bridge currently has a connection to the remote broker.
#[derive(Clone, Copy, Debug, PartialEq, Eq, Structural)]
pub enum ConnectivityState {
    Connected,
    Disconnected,
}

/// A message for the pump.
#[derive(Clone, Copy, Debug, PartialEq, Eq, Structural)]
pub enum PumpMessage {
    /// The connectivity state changed to the given one.
    ConnectivityUpdate(ConnectivityState),
}

impl PumpMessage {
    /// The connectivity state that this message announces.
    pub open spec fn announced(self) -> ConnectivityState {
        match self {
            PumpMessage::ConnectivityUpdate(state) => state,
        }
    }

    /// The connectivity state that this message announces.
    pub fn state(&self) -> (state: ConnectivityState)
        ensures
            state == self.announced(),
    {
        match self {
            PumpMessage::ConnectivityUpdate(state) => *state,
        }
    }
}

/// The sending end of the pump, as the handlers hold it. Clones send into the
/// same queue. The handle does not keep the queue alive: once the receiving
/// end is gone, a send through it fails.
pub struct PumpHandle {
    sender: tokio::sync::mpsc::Sender<PumpMessage>,
}

impl Clone for PumpHandle {
    /// Another handle for the same queue.
    fn clone(&self) -> (handle: Self) {
        PumpHandle { sender: self.sender.clone() }
    }
}

impl PumpHandle {
    /// The channel endpoint that the handle sends through.
    pub closed spec fn endpoint(self) -> tokio::sync::mpsc::Sender<PumpMessage> {
        self.sender
    }

    /// A handle that sends through `sender`.
    pub fn new(sender: tokio::sync::mpsc::Sender<PumpMessage>) -> (handle: Self)
        ensures
            handle.endpoint() == sender,
    {
        PumpHandle { sender }
    }

    /// The channel endpoint to send through.
    pub fn sender(&self) -> (sender: &tokio::sync::mpsc::Sender<PumpMessage>)
        ensures
            *sender == self.endpoint(),
    {
        &self.sender
    }
}

/// Why a message could not be handed to the pump.
#[derive(Clone, Copy, Debug, PartialEq, Eq, Structural)]
pub enum PumpError {
    /// The receiving end of the pump is gone.
    Closed,
}

} // verus!
