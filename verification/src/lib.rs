//! Verified core of the termorio factory orchestrator: message framing,
//! the factory table, the registration protocol and the status probe.

pub mod constants;
pub mod factories;
pub mod framing;
pub mod messages;
pub mod naming;
pub mod status;
pub mod orchestrator;
pub mod errors;
pub mod sockets;
pub mod tasks;
pub mod factory;
pub mod laws;
