//! Sizes, intervals and names shared by the orchestrator and the factories.

use vstd::prelude::*;

verus! {

/// Capacity of the buffer a factory reads its registration reply into.
pub const REGISTRATION_BUFFER_SIZE: usize = 1024;

/// Capacity of the buffer a factory reads status requests into.
pub const STATUS_UPDATE_BUFFER_SIZE: usize = 1024;

/// How many factory change events the orchestrator's channel holds.
pub const ORCHESTRATOR_EVENT_QUEUE_SIZE: usize = 100;

/// Wait before asking a factory again after a request could not be sent, in milliseconds.
pub const STATUS_MESSAGE_REQUEST_RETRY_INTERVAL_MS: u64 = 250;

/// Wait between two status requests to a running factory, in milliseconds.
pub const STATUS_MESSAGE_REQUEST_INTERVAL_MS: u64 = 500;

/// How long a factory has to answer a status request, in milliseconds.
pub const STATUS_MESSAGE_REQUEST_TIMEOUT_MS: u64 = 1000;

/// Wait between two listings of the factory table, in milliseconds.
pub const STATUS_DISPLAY_INTERVAL_MS: u64 = 200;

/// Name of the orchestrator's registration socket.
pub const ORCHESTRATOR_SOCKET_NAME: &'static str = "termorio_orchestrator";

} // verus!
