use termorio::constants::{STATUS_MESSAGE_REQUEST_INTERVAL_MS, STATUS_MESSAGE_REQUEST_RETRY_INTERVAL_MS};
use termorio::factories::FactoryStatus;
use termorio::messages::{FactoryChangeEvent, StatusUpdateMessage};
use termorio::status::{
    factory_reply, status_from_reply, ProbeErrorKind, ProbeFailure, ProbeNext, ProbeOutcome,
    ProbeStep, StatusProbe,
};

fn probe(recorded: FactoryStatus) -> StatusProbe {
    StatusProbe::new(42, String::from("smelter"), recorded)
}

#[test]
fn replies_map_to_statuses() {
    assert_eq!(status_from_reply(&StatusUpdateMessage::Status { status: Ok(()) }), FactoryStatus::Running);
    assert_eq!(status_from_reply(&StatusUpdateMessage::Status { status: Err(()) }), FactoryStatus::Dead);
    assert_eq!(status_from_reply(&StatusUpdateMessage::Stopping), FactoryStatus::Stopped);
    assert_eq!(status_from_reply(&StatusUpdateMessage::RequestStatus), FactoryStatus::Dead);
}

#[test]
fn factory_answers_only_status_requests() {
    assert_eq!(
        factory_reply(&StatusUpdateMessage::RequestStatus),
        Some(StatusUpdateMessage::Status { status: Ok(()) })
    );
    assert_eq!(factory_reply(&StatusUpdateMessage::Stopping), None);
    assert_eq!(factory_reply(&StatusUpdateMessage::Status { status: Ok(()) }), None);
}

#[test]
fn healthy_factory_is_probed_again_without_event() {
    let reply = factory_reply(&StatusUpdateMessage::RequestStatus).unwrap();
    assert_eq!(status_from_reply(&reply), FactoryStatus::Running);
    let step = probe(FactoryStatus::Running).step(ProbeOutcome::Replied(reply));
    assert_eq!(
        step,
        ProbeStep { event: None, next: ProbeNext::AskAgainAfter(STATUS_MESSAGE_REQUEST_INTERVAL_MS) }
    );
    assert_eq!(STATUS_MESSAGE_REQUEST_INTERVAL_MS, 500);
}

#[test]
fn running_reply_after_other_status_publishes_change() {
    let step = probe(FactoryStatus::Dead)
        .step(ProbeOutcome::Replied(StatusUpdateMessage::Status { status: Ok(()) }));
    assert_eq!(step.event, Some(FactoryChangeEvent::StatusChanged(42, FactoryStatus::Running)));
    assert_eq!(step.next, ProbeNext::AskAgainAfter(500));
}

#[test]
fn stopping_reply_ends_probe_quietly() {
    let step = probe(FactoryStatus::Running).step(ProbeOutcome::Replied(StatusUpdateMessage::Stopping));
    assert_eq!(step.event, Some(FactoryChangeEvent::StatusChanged(42, FactoryStatus::Stopped)));
    assert_eq!(step.next, ProbeNext::Finished(Ok(())));
}

#[test]
fn dead_reply_ends_probe_with_error() {
    let step = probe(FactoryStatus::Running)
        .step(ProbeOutcome::Replied(StatusUpdateMessage::Status { status: Err(()) }));
    assert_eq!(step.event, Some(FactoryChangeEvent::StatusChanged(42, FactoryStatus::Dead)));
    assert_eq!(
        step.next,
        ProbeNext::Finished(Err(ProbeFailure {
            kind: ProbeErrorKind::Other,
            message: String::from("Factory smelter is not running"),
        }))
    );
}

#[test]
fn dead_reply_for_dead_factory_publishes_nothing() {
    let step = probe(FactoryStatus::Dead).step(ProbeOutcome::Replied(StatusUpdateMessage::RequestStatus));
    assert_eq!(step.event, None);
    assert!(matches!(step.next, ProbeNext::Finished(Err(_))));
}

#[test]
fn timeout_marks_factory_stopped() {
    let step = probe(FactoryStatus::Running)
        .step(ProbeOutcome::ReplyTimedOut { detail: String::from("deadline has elapsed") });
    assert_eq!(step.event, Some(FactoryChangeEvent::StatusChanged(42, FactoryStatus::Stopped)));
    assert_eq!(
        step.next,
        ProbeNext::Finished(Err(ProbeFailure {
            kind: ProbeErrorKind::TimedOut,
            message: String::from("Status update message timed out: deadline has elapsed"),
        }))
    );
}

#[test]
fn receive_failure_aborts_without_event() {
    let step = probe(FactoryStatus::Running)
        .step(ProbeOutcome::ReceiveFailed { detail: String::from("early eof") });
    assert_eq!(step.event, None);
    assert_eq!(
        step.next,
        ProbeNext::Finished(Err(ProbeFailure {
            kind: ProbeErrorKind::ConnectionAborted,
            message: String::from("Connection error during factory status check : early eof"),
        }))
    );
}

#[test]
fn undecodable_reply_marks_factory_dead() {
    let step = probe(FactoryStatus::Running)
        .step(ProbeOutcome::ReplyUndecodable { detail: String::from("bad tag") });
    assert_eq!(step.event, Some(FactoryChangeEvent::StatusChanged(42, FactoryStatus::Dead)));
    assert_eq!(
        step.next,
        ProbeNext::Finished(Err(ProbeFailure {
            kind: ProbeErrorKind::Other,
            message: String::from("Failed to deserialize status update message: bad tag"),
        }))
    );
}

#[test]
fn broken_pipe_marks_factory_dead_and_ends() {
    let step = probe(FactoryStatus::Running).step(ProbeOutcome::SendFailed { broken_pipe: true });
    assert_eq!(step.event, Some(FactoryChangeEvent::StatusChanged(42, FactoryStatus::Dead)));
    assert_eq!(step.next, ProbeNext::Finished(Ok(())));
}

#[test]
fn other_send_failure_retries() {
    let step = probe(FactoryStatus::Running).step(ProbeOutcome::SendFailed { broken_pipe: false });
    assert_eq!(step.event, None);
    assert_eq!(step.next, ProbeNext::AskAgainAfter(STATUS_MESSAGE_REQUEST_RETRY_INTERVAL_MS));
    assert_eq!(STATUS_MESSAGE_REQUEST_RETRY_INTERVAL_MS, 250);
}
