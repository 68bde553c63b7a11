use termorio::factories::{FactoryConnection, FactoryStatus};
use termorio::messages::{FactoryChangeEvent, RegistrationMessage};
use termorio::orchestrator::{reply_message, Orchestrator, OrchestratorConfig, RegistrationStep};
use termorio::tasks::{StatusTaskSet, TaskAction};

fn orchestrator() -> Orchestrator {
    Orchestrator::new(OrchestratorConfig { registration_socket: String::from("termorio_orchestrator") })
}

fn register(o: &mut Orchestrator, id: u128, name: &str) {
    let step = o.register_factory(id, String::from(name), format!("/tmp/{id}"), Ok(()));
    assert_eq!(step, RegistrationStep::PublishAdded { factory_id: id, socket_path: format!("/tmp/{id}") });
}

#[test]
fn new_orchestrator_is_empty() {
    let o = orchestrator();
    assert_eq!(o.factory(1), None);
    assert_eq!(o.config().registration_socket, "termorio_orchestrator");
    assert_eq!(o.factories_snapshot().len(), 0);
}

#[test]
fn register_message_asks_for_status_socket() {
    let mut o = orchestrator();
    let step = o.handle_message(RegistrationMessage::Register { factory_name: String::from("mill") }, "/tmp");
    match step {
        RegistrationStep::OpenStatusSocket { factory_id, factory_name, socket_path } => {
            assert_eq!(factory_name, "mill");
            assert_eq!((factory_id >> 76) & 0xf, 4);
            assert_eq!((factory_id >> 62) & 0x3, 2);
            let text = uuid::Uuid::from_u128(factory_id).to_string();
            assert_eq!(socket_path, format!("/tmp/{text}"));
            assert_eq!(o.factory(factory_id), None);
        }
        other => panic!("unexpected step {other:?}"),
    }
}

#[test]
fn two_registrations_get_different_ids() {
    let mut o = orchestrator();
    let a = o.handle_message(RegistrationMessage::Register { factory_name: String::from("a") }, "/tmp");
    let b = o.handle_message(RegistrationMessage::Register { factory_name: String::from("b") }, "/tmp");
    match (a, b) {
        (
            RegistrationStep::OpenStatusSocket { factory_id: x, .. },
            RegistrationStep::OpenStatusSocket { factory_id: y, .. },
        ) => assert_ne!(x, y),
        other => panic!("unexpected steps {other:?}"),
    }
}

#[test]
fn opened_socket_registers_running_factory() {
    let mut o = orchestrator();
    register(&mut o, 7, "mill");
    assert_eq!(o.factory(7), Some(FactoryConnection { name: String::from("mill"), status: FactoryStatus::Running }));
    assert_eq!(o.factories_snapshot().len(), 1);
}

#[test]
fn snapshot_lists_each_factory_once() {
    let mut o = orchestrator();
    register(&mut o, 1, "a");
    register(&mut o, 2, "b");
    register(&mut o, 1, "c");
    let mut snapshot = o.factories_snapshot();
    snapshot.sort_by_key(|(id, _)| *id);
    assert_eq!(
        snapshot,
        vec![
            (1, FactoryConnection { name: String::from("c"), status: FactoryStatus::Running }),
            (2, FactoryConnection { name: String::from("b"), status: FactoryStatus::Running }),
        ]
    );
}

#[test]
fn failed_socket_is_answered_with_error() {
    let mut o = orchestrator();
    let step = o.register_factory(7, String::from("mill"), String::from("/tmp/7"), Err(String::from("in use")));
    assert_eq!(
        step,
        RegistrationStep::Reply(Err(RegistrationMessage::Error { error: String::from("Failed to open socket: in use") }))
    );
    assert_eq!(o.factory(7), None);
}

#[test]
fn published_registration_is_confirmed() {
    let mut o = orchestrator();
    register(&mut o, 7, "mill");
    let reply = o.complete_registration(7, String::from("/tmp/7"), Ok(()));
    assert_eq!(reply, Ok(RegistrationMessage::Registered { factory_id: 7, socket_name: String::from("/tmp/7") }));
    assert_eq!(o.factory(7).unwrap().status, FactoryStatus::Running);
}

#[test]
fn unpublished_registration_marks_factory_dead() {
    let mut o = orchestrator();
    register(&mut o, 7, "mill");
    let reply = o.complete_registration(7, String::from("/tmp/7"), Err(String::from("channel closed")));
    assert_eq!(
        reply,
        Err(RegistrationMessage::Error { error: String::from("Failed to send registration event: channel closed") })
    );
    assert_eq!(o.factory(7), Some(FactoryConnection { name: String::from("mill"), status: FactoryStatus::Dead }));
}

#[test]
fn unregister_marks_factory_stopped_and_announces_removal() {
    let mut o = orchestrator();
    register(&mut o, 7, "mill");
    register(&mut o, 8, "press");
    let step = o.handle_message(RegistrationMessage::Unregister { factory_id: 7 }, "/tmp");
    assert_eq!(
        step,
        RegistrationStep::Announce { event: FactoryChangeEvent::Removed(7), reply: Ok(RegistrationMessage::Unregistered) }
    );
    assert_eq!(o.factory(7), Some(FactoryConnection { name: String::from("mill"), status: FactoryStatus::Stopped }));
    assert_eq!(o.factory(8).unwrap().status, FactoryStatus::Running);
}

#[test]
fn unregister_of_unknown_factory_adds_nothing() {
    let mut o = orchestrator();
    let step = o.handle_message(RegistrationMessage::Unregister { factory_id: 99 }, "/tmp");
    assert!(matches!(step, RegistrationStep::Announce { event: FactoryChangeEvent::Removed(99), .. }));
    assert_eq!(o.factory(99), None);
}

#[test]
fn error_message_is_sent_back() {
    let mut o = orchestrator();
    let message = RegistrationMessage::Error { error: String::from("oops") };
    let step = o.handle_message(message.clone(), "/tmp");
    assert_eq!(step, RegistrationStep::Reply(Err(message)));
}

#[test]
fn other_messages_are_unknown() {
    let mut o = orchestrator();
    for message in [
        RegistrationMessage::Unregistered,
        RegistrationMessage::Registered { factory_id: 3, socket_name: String::from("x") },
    ] {
        let step = o.handle_message(message, "/tmp");
        assert_eq!(
            step,
            RegistrationStep::Reply(Err(RegistrationMessage::Error { error: String::from("Unknown message") }))
        );
    }
}

#[test]
fn reply_message_unwraps_both_sides() {
    assert_eq!(reply_message(Ok(RegistrationMessage::Unregistered)), RegistrationMessage::Unregistered);
    assert_eq!(
        reply_message(Err(RegistrationMessage::Error { error: String::from("e") })),
        RegistrationMessage::Error { error: String::from("e") }
    );
}

#[test]
fn status_change_updates_only_that_factory() {
    let mut o = orchestrator();
    register(&mut o, 1, "a");
    register(&mut o, 2, "b");
    assert!(o.apply_status_change(1, FactoryStatus::Dead));
    assert!(o.apply_status_change(1, FactoryStatus::Stopped));
    assert!(!o.apply_status_change(3, FactoryStatus::Dead));
    assert_eq!(o.factory(1), Some(FactoryConnection { name: String::from("a"), status: FactoryStatus::Stopped }));
    assert_eq!(o.factory(2).unwrap().status, FactoryStatus::Running);
    assert_eq!(o.factory(3), None);
}

#[test]
fn copy_with_different_status_keeps_name() {
    let conn = FactoryConnection { name: String::from("kiln"), status: FactoryStatus::Uninitialized };
    let copy = conn.get_copy_with_different_status(FactoryStatus::Running);
    assert_eq!(copy, FactoryConnection { name: String::from("kiln"), status: FactoryStatus::Running });
}

#[test]
fn supervisor_follows_change_events() {
    let mut o = orchestrator();
    register(&mut o, 5, "forge");
    let mut tasks = StatusTaskSet::new();
    assert_eq!(tasks.apply_change_event(&mut o, FactoryChangeEvent::Added(5)), TaskAction::StartProbe(5));
    assert!(tasks.contains(5));
    assert_eq!(
        tasks.apply_change_event(&mut o, FactoryChangeEvent::StatusChanged(5, FactoryStatus::Dead)),
        TaskAction::Nothing
    );
    assert_eq!(o.factory(5).unwrap().status, FactoryStatus::Dead);
    assert_eq!(tasks.apply_change_event(&mut o, FactoryChangeEvent::Removed(5)), TaskAction::StopProbe(5));
    assert!(!tasks.contains(5));
    assert_eq!(o.factory(5).unwrap().status, FactoryStatus::Dead);
}

#[test]
fn probe_runs_only_while_added_and_not_removed() {
    let mut o = orchestrator();
    let mut tasks = StatusTaskSet::new();
    assert!(!tasks.contains(3));
    tasks.apply_change_event(&mut o, FactoryChangeEvent::Added(3));
    tasks.apply_change_event(&mut o, FactoryChangeEvent::Added(4));
    tasks.apply_change_event(&mut o, FactoryChangeEvent::Removed(3));
    assert!(!tasks.contains(3));
    assert!(tasks.contains(4));
    tasks.apply_change_event(&mut o, FactoryChangeEvent::Added(3));
    assert!(tasks.contains(3));
}
