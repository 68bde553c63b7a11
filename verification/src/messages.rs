//! The messages of the registration and status protocols, and the events the
//! orchestrator passes between its tasks. Factory ids are the 128-bit values
//! of the factories' UUIDs.

use vstd::prelude::*;
use crate::factories::FactoryStatus;

verus! {

/// Messages on the orchestrator's registration socket.
#[derive(Debug, Clone, PartialEq, Eq)]
pub enum RegistrationMessage {
    Register { factory_name: String },
    Registered { factory_id: u128, socket_name: String },
    Unregister { factory_id: u128 },
    Unregistered,
    Error { error: String },
}

/// Messages on a factory's status socket.
#[derive(Debug, Clone, Copy, PartialEq, Eq)]
pub enum StatusUpdateMessage {
    RequestStatus,
    Status { status: Result<(), ()> },
    Stopping,
}

/// The two ends of a local socket.
#[derive(Debug, Clone, Copy, PartialEq, Eq)]
pub enum SocketRole {
    Server,
    Client,
}

/// A change in the factory table, published to the orchestrator's tasks.
#[derive(Debug, Clone, Copy, PartialEq, Eq)]
pub enum FactoryChangeEvent {
    Added(u128),
    Removed(u128),
    StatusChanged(u128, FactoryStatus),
}

} // verus!
