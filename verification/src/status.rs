//! The status protocol: how a factory answers a status request, and what the
//! orchestrator's status probe of one factory decides after each exchange.

use vstd::prelude::*;
use crate::constants::{STATUS_MESSAGE_REQUEST_INTERVAL_MS, STATUS_MESSAGE_REQUEST_RETRY_INTERVAL_MS};
use crate::factories::FactoryStatus;
use crate::messages::{FactoryChangeEvent, StatusUpdateMessage};

verus! {

/// `a` followed by `b`.
pub(crate) fn concat_text(a: &str, b: &str) -> (text: String)
    ensures
        text@ == a@ + b@,
{
    let mut text: String = String::from_str(a);
    text.append(b);
    text
}

/// The status a factory is in when it answers a status request with `reply`.
pub open spec fn status_of_reply(reply: StatusUpdateMessage) -> FactoryStatus {
    match reply {
        StatusUpdateMessage::Status { status: Ok(()) } => FactoryStatus::Running,
        StatusUpdateMessage::Status { status: Err(()) } => FactoryStatus::Dead,
        StatusUpdateMessage::Stopping => FactoryStatus::Stopped,
        StatusUpdateMessage::RequestStatus => FactoryStatus::Dead,
    }
}

/// The status a factory is in when it answers a status request with `reply`;
/// an answer never leaves a factory `Uninitialized`.
pub fn status_from_reply(reply: &StatusUpdateMessage) -> (status: FactoryStatus)
    ensures
        status == status_of_reply(*reply),
        status != FactoryStatus::Uninitialized,
        (*reply matches StatusUpdateMessage::Status { status: Ok(_) }) <==> status
            == FactoryStatus::Running,
        *reply == StatusUpdateMessage::Stopping <==> status == FactoryStatus::Stopped,
{
    match reply {
        StatusUpdateMessage::Status { status } => match status {
            Ok(()) => FactoryStatus::Running,
            Err(()) => FactoryStatus::Dead,
        },
        StatusUpdateMessage::Stopping => FactoryStatus::Stopped,
        StatusUpdateMessage::RequestStatus => FactoryStatus::Dead,
    }
}

/// What a factory sends back for a message on its status socket.
pub open spec fn reply_of(request: StatusUpdateMessage) -> Option<StatusUpdateMessage> {
    match request {
        StatusUpdateMessage::RequestStatus => Some(StatusUpdateMessage::Status { status: Ok(()) }),
        _ => None,
    }
}

/// What a running factory sends back for a message on its status socket:
/// a healthy status for a status request, nothing for anything else.
pub fn factory_reply(request: &StatusUpdateMessage) -> (reply: Option<StatusUpdateMessage>)
    ensures
        reply == reply_of(*request),
        reply is Some <==> *request == StatusUpdateMessage::RequestStatus,
        reply is Some ==> reply == Some(StatusUpdateMessage::Status { status: Ok(()) }),
{
    match request {
        StatusUpdateMessage::RequestStatus => Some(StatusUpdateMessage::Status { status: Ok(()) }),
        _ => None,
    }
}

/// How one status exchange with a factory went.
#[derive(Debug, Clone, PartialEq, Eq)]
pub enum ProbeOutcome {
    /// The request could not be sent; `broken_pipe` when the factory closed the socket.
    SendFailed { broken_pipe: bool },
    /// No reply came within the timeout.
    ReplyTimedOut { detail: String },
    /// Reading the reply failed.
    ReceiveFailed { detail: String },
    /// A reply came but is not a status message.
    ReplyUndecodable { detail: String },
    /// The factory replied with this message.
    Replied(StatusUpdateMessage),
}

/// The kind of error a probe ends with.
#[derive(Debug, Clone, Copy, PartialEq, Eq, Structural)]
pub enum ProbeErrorKind {
    TimedOut,
    ConnectionAborted,
    Other,
}

/// The error a probe ends with.
#[derive(Debug, Clone, PartialEq, Eq)]
pub struct ProbeFailure {
    pub kind: ProbeErrorKind,
    pub message: String,
}

/// What the probe does after an exchange.
#[derive(Debug, PartialEq, Eq)]
pub enum ProbeNext {
    /// Wait this many milliseconds, then ask again.
    AskAgainAfter(u64),
    /// Stop probing this factory, with this result.
    Finished(Result<(), ProbeFailure>),
}

/// The probe's decision after one exchange: an event to publish, if any,
/// and what to do next.
#[derive(Debug, PartialEq, Eq)]
pub struct ProbeStep {
    pub event: Option<FactoryChangeEvent>,
    pub next: ProbeNext,
}

/// `next` ends the probe with an error of `kind` whose message is `text`.
pub open spec fn fails_with(next: ProbeNext, kind: ProbeErrorKind, text: Seq<char>) -> bool {
    &&& next matches ProbeNext::Finished(Err(failure))
    &&& failure.kind == kind
    &&& failure.message@ == text
}

/// The status probe of one factory. `recorded_status` is the status the
/// factory table held when the probe started; a reply that shows another
/// status is published as a change.
#[derive(Debug, Clone, PartialEq, Eq)]
pub struct StatusProbe {
    pub factory_id: u128,
    pub factory_name: String,
    pub recorded_status: FactoryStatus,
}

impl StatusProbe {
    /// A probe of the factory `factory_id`, named `factory_name`, whose status
    /// in the table is `recorded_status`.
    pub fn new(factory_id: u128, factory_name: String, recorded_status: FactoryStatus) -> (probe:
        Self)
        ensures
            probe.factory_id == factory_id,
            probe.factory_name == factory_name,
            probe.recorded_status == recorded_status,
    {
        StatusProbe { factory_id, factory_name, recorded_status }
    }

    /// The decision after a reply `reply`: publish a change when the status it
    /// shows differs from the recorded one; keep asking a running factory,
    /// stop quietly for a stopped one, and fail for a dead one.
    pub open spec fn reply_step_holds(self, reply: StatusUpdateMessage, step: ProbeStep) -> bool {
        let status = status_of_reply(reply);
        &&& step.event == (if status != self.recorded_status {
            Some(FactoryChangeEvent::StatusChanged(self.factory_id, status))
        } else {
            None
        })
        &&& match status {
            FactoryStatus::Running => step.next == ProbeNext::AskAgainAfter(
                STATUS_MESSAGE_REQUEST_INTERVAL_MS,
            ),
            FactoryStatus::Stopped => step.next == ProbeNext::Finished(Ok(())),
            _ => fails_with(
                step.next,
                ProbeErrorKind::Other,
                "Factory "@ + self.factory_name@ + " is not running"@,
            ),
        }
    }

    /// What the probe does after the exchange that went as `outcome`.
    pub fn step(&self, outcome: ProbeOutcome) -> (step: ProbeStep)
        ensures
            match outcome {
                ProbeOutcome::SendFailed { broken_pipe } => if broken_pipe {
                    &&& step.event == Some(
                        FactoryChangeEvent::StatusChanged(self.factory_id, FactoryStatus::Dead),
                    )
                    &&& step.next == ProbeNext::Finished(Ok(()))
                } else {
                    &&& step.event is None
                    &&& step.next == ProbeNext::AskAgainAfter(
                        STATUS_MESSAGE_REQUEST_RETRY_INTERVAL_MS,
                    )
                },
                ProbeOutcome::ReplyTimedOut { detail } => {
                    &&& step.event == Some(
                        FactoryChangeEvent::StatusChanged(self.factory_id, FactoryStatus::Stopped),
                    )
                    &&& fails_with(
                        step.next,
                        ProbeErrorKind::TimedOut,
                        "Status update message timed out: "@ + detail@,
                    )
                },
                ProbeOutcome::ReceiveFailed { detail } => {
                    &&& step.event is None
                    &&& fails_with(
                        step.next,
                        ProbeErrorKind::ConnectionAborted,
                        "Connection error during factory status check : "@ + detail@,
                    )
                },
                ProbeOutcome::ReplyUndecodable { detail } => {
                    &&& step.event == Some(
                        FactoryChangeEvent::StatusChanged(self.factory_id, FactoryStatus::Dead),
                    )
                    &&& fails_with(
                        step.next,
                        ProbeErrorKind::Other,
                        "Failed to deserialize status update message: "@ + detail@,
                    )
                },
                ProbeOutcome::Replied(reply) => self.reply_step_holds(reply, step),
            },
    {
        match outcome {
            ProbeOutcome::SendFailed { broken_pipe } => {
                if broken_pipe {
                    ProbeStep {
                        event: Some(
                            FactoryChangeEvent::StatusChanged(self.factory_id, FactoryStatus::Dead),
                        ),
                        next: ProbeNext::Finished(Ok(())),
                    }
                } else {
                    ProbeStep {
                        event: None,
                        next: ProbeNext::AskAgainAfter(STATUS_MESSAGE_REQUEST_RETRY_INTERVAL_MS),
                    }
                }
            },
            ProbeOutcome::ReplyTimedOut { detail } => ProbeStep {
                event: Some(
                    FactoryChangeEvent::StatusChanged(self.factory_id, FactoryStatus::Stopped),
                ),
                next: ProbeNext::Finished(
                    Err(
                        ProbeFailure {
                            kind: ProbeErrorKind::TimedOut,
                            message: concat_text(
                                "Status update message timed out: ",
                                detail.as_str(),
                            ),
                        },
                    ),
                ),
            },
            ProbeOutcome::ReceiveFailed { detail } => ProbeStep {
                event: None,
                next: ProbeNext::Finished(
                    Err(
                        ProbeFailure {
                            kind: ProbeErrorKind::ConnectionAborted,
                            message: concat_text(
                                "Connection error during factory status check : ",
                                detail.as_str(),
                            ),
                        },
                    ),
                ),
            },
            ProbeOutcome::ReplyUndecodable { detail } => ProbeStep {
                event: Some(
                    FactoryChangeEvent::StatusChanged(self.factory_id, FactoryStatus::Dead),
                ),
                next: ProbeNext::Finished(
                    Err(
                        ProbeFailure {
                            kind: ProbeErrorKind::Other,
                            message: concat_text(
                                "Failed to deserialize status update message: ",
                                detail.as_str(),
                            ),
                        },
                    ),
                ),
            },
            ProbeOutcome::Replied(reply) => {
                let status: FactoryStatus = status_from_reply(&reply);
                let event: Option<FactoryChangeEvent> = if status != self.recorded_status {
                    Some(FactoryChangeEvent::StatusChanged(self.factory_id, status))
                } else {
                    None
                };
                let next: ProbeNext = match status {
                    FactoryStatus::Running => ProbeNext::AskAgainAfter(
                        STATUS_MESSAGE_REQUEST_INTERVAL_MS,
                    ),
                    FactoryStatus::Stopped => ProbeNext::Finished(Ok(())),
                    _ => {
                        let head: String = concat_text("Factory ", self.factory_name.as_str());
                        ProbeNext::Finished(
                            Err(
                                ProbeFailure {
                                    kind: ProbeErrorKind::Other,
                                    message: concat_text(head.as_str(), " is not running"),
                                },
                            ),
                        )
                    },
                };
                ProbeStep { event, next }
            },
        }
    }
}

} // verus!
