//! Connectivity tracking for an MQTT bridge.
//!
//! The protocol client reports connection lifecycle events, possibly more than
//! once for the same underlying condition. The [`ConnectivityHandler`] folds
//! them into an edge-triggered connectivity state: an update is announced on
//! the pump exactly when the state changes. The handler itself performs no
//! I/O. It decides what has to be sent, the caller sends it, and the handler
//! commits the new state once the caller reports how the send ended.
pub mod client;
pub mod connectivity;
pub mod pump;

pub use client::{ConnectionError, Event, Handled, QoS, SubscribeTo, SubscriptionUpdateEvent};
pub use connectivity::{ConnectivityError, ConnectivityHandler, Step};
pub use pump::{ConnectivityState, PumpError, PumpHandle, PumpMessage};
