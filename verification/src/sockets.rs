//! How failures of the local sockets are reported: which kind of error, with
//! which text. Opening and using the sockets is left to the caller.

use vstd::prelude::*;
use crate::messages::SocketRole;
use crate::status::concat_text;

verus! {

/// The kinds of socket error the orchestrator and the factories report.
#[derive(Debug, Clone, Copy, PartialEq, Eq, Structural)]
pub enum SocketErrorKind {
    Unsupported,
    AddrInUse,
    ConnectionAborted,
    ConnectionRefused,
}

/// A socket error: its kind and its text.
#[derive(Debug, Clone, PartialEq, Eq)]
pub struct SocketFailure {
    pub kind: SocketErrorKind,
    pub message: String,
}

/// Whether a listening socket can be opened in `role`: only a server opens
/// one; a client is refused as unsupported.
pub fn raw_socket_support(role: SocketRole) -> (support: Result<(), SocketFailure>)
    ensures
        match role {
            SocketRole::Server => support is Ok,
            SocketRole::Client => support matches Err(f) && f.kind == SocketErrorKind::Unsupported
                && f.message@ == "Client raw sockets are not supported"@,
        },
{
    match role {
        SocketRole::Server => Ok(()),
        SocketRole::Client => Err(
            SocketFailure {
                kind: SocketErrorKind::Unsupported,
                message: String::from_str("Client raw sockets are not supported"),
            },
        ),
    }
}

/// The error reported when a listening socket cannot be created: the
/// address being in use is reported as such; any other cause, whose text is
/// `detail`, as an aborted connection.
pub fn listener_failure(addr_in_use: bool, detail: &str) -> (failure: SocketFailure)
    ensures
        addr_in_use ==> failure.kind == SocketErrorKind::AddrInUse && failure.message@
            == "Address already in use"@,
        !addr_in_use ==> failure.kind == SocketErrorKind::ConnectionAborted && failure.message@
            == "Failed to create listener: "@ + detail@,
{
    if addr_in_use {
        SocketFailure {
            kind: SocketErrorKind::AddrInUse,
            message: String::from_str("Address already in use"),
        }
    } else {
        SocketFailure {
            kind: SocketErrorKind::ConnectionAborted,
            message: concat_text("Failed to create listener: ", detail),
        }
    }
}

/// The error reported when a client cannot connect, the cause's text being `detail`.
pub fn connect_failure(detail: &str) -> (failure: SocketFailure)
    ensures
        failure.kind == SocketErrorKind::ConnectionRefused,
        failure.message@ == "Failed to connect to socket: "@ + detail@,
{
    SocketFailure {
        kind: SocketErrorKind::ConnectionRefused,
        message: concat_text("Failed to connect to socket: ", detail),
    }
}

} // verus!
