//! Properties that span several operations of the library.

use vstd::prelude::*;
use crate::constants::STATUS_MESSAGE_REQUEST_INTERVAL_MS;
use crate::factories::{FactoryConnection, FactoryStatus};
use crate::messages::{FactoryChangeEvent, StatusUpdateMessage};
use crate::naming::{
    joined_path, lemma_stem_of_dotless, lemma_stem_shape, lemma_uuid_text_dotless, name_stem, uuid_text,
};
use crate::orchestrator::{registered_entry, set_status_in};
use crate::status::{reply_of, status_of_reply, ProbeNext, ProbeStep, StatusProbe};

verus! {

/// A factory asked for its status answers with a message that the
/// orchestrator reads as `Running`.
pub proof fn lemma_factory_reply_reads_as_running()
    ensures
        reply_of(StatusUpdateMessage::RequestStatus) is Some,
        status_of_reply(reply_of(StatusUpdateMessage::RequestStatus)->Some_0)
            == FactoryStatus::Running,
{
}

/// Probing a healthy factory goes on: after its answer the probe asks again
/// after the regular interval, and publishes a change only when the table did
/// not already hold it as running.
pub proof fn lemma_healthy_factory_keeps_being_probed(probe: StatusProbe, step: ProbeStep)
    requires
        probe.reply_step_holds(reply_of(StatusUpdateMessage::RequestStatus)->Some_0, step),
    ensures
        step.next == ProbeNext::AskAgainAfter(STATUS_MESSAGE_REQUEST_INTERVAL_MS),
        step.event == (if probe.recorded_status == FactoryStatus::Running {
            None
        } else {
            Some(FactoryChangeEvent::StatusChanged(probe.factory_id, FactoryStatus::Running))
        }),
{
}

/// No answer of a factory makes the probe publish the status `Uninitialized`.
pub proof fn lemma_probe_never_publishes_uninitialized(
    probe: StatusProbe,
    reply: StatusUpdateMessage,
    step: ProbeStep,
)
    requires
        probe.reply_step_holds(reply, step),
    ensures
        step.event matches Some(FactoryChangeEvent::StatusChanged(id, status)) ==> id
            == probe.factory_id && status != FactoryStatus::Uninitialized,
{
}

/// A registered factory is in the table under its id, with its name,
/// running; the other entries are those that were there before.
pub proof fn lemma_registration_adds_running_factory(
    table: Map<u128, FactoryConnection>,
    factory_id: u128,
    factory_name: String,
    other: u128,
)
    ensures
        table.insert(factory_id, registered_entry(factory_name)).dom().contains(factory_id),
        table.insert(factory_id, registered_entry(factory_name))[factory_id].name == factory_name,
        table.insert(factory_id, registered_entry(factory_name))[factory_id].status
            == FactoryStatus::Running,
        other != factory_id ==> (table.insert(factory_id, registered_entry(factory_name)).dom().contains(other)
            == table.dom().contains(other)),
        other != factory_id && table.dom().contains(other) ==> table.insert(
            factory_id,
            registered_entry(factory_name),
        )[other] == table[other],
{
}

/// Unregistering a registered factory keeps it in the table, under its name,
/// as stopped.
pub proof fn lemma_unregistration_after_registration(
    table: Map<u128, FactoryConnection>,
    factory_id: u128,
    factory_name: String,
)
    ensures
        set_status_in(
            table.insert(factory_id, registered_entry(factory_name)),
            factory_id,
            FactoryStatus::Stopped,
        )[factory_id] == (FactoryConnection { name: factory_name, status: FactoryStatus::Stopped }),
{
}

/// A status change never adds or removes a factory, touches no other
/// factory, and on a registered one sets exactly the status.
pub proof fn lemma_status_change_is_local(
    table: Map<u128, FactoryConnection>,
    factory_id: u128,
    status: FactoryStatus,
    other: u128,
)
    ensures
        set_status_in(table, factory_id, status).dom() == table.dom(),
        other != factory_id && table.dom().contains(other) ==> set_status_in(
            table,
            factory_id,
            status,
        )[other] == table[other],
        table.dom().contains(factory_id) ==> set_status_in(table, factory_id, status)[factory_id]
            == (FactoryConnection { name: table[factory_id].name, status }),
{
    if table.dom().contains(factory_id) {
        assert(set_status_in(table, factory_id, status).dom() =~= table.dom());
    }
}

/// The latest of two status changes of one factory is the one that stays.
pub proof fn lemma_last_status_change_wins(
    table: Map<u128, FactoryConnection>,
    factory_id: u128,
    first: FactoryStatus,
    second: FactoryStatus,
)
    ensures
        set_status_in(set_status_in(table, factory_id, first), factory_id, second)
            == set_status_in(table, factory_id, second),
{
    if table.dom().contains(factory_id) {
        assert(set_status_in(set_status_in(table, factory_id, first), factory_id, second)
            =~= set_status_in(table, factory_id, second));
    }
}

/// Taking the stem of a stem changes nothing.
pub proof fn lemma_stem_idempotent(name: Seq<char>)
    ensures
        name_stem(name_stem(name)) == name_stem(name),
{
    lemma_stem_shape(name);
    lemma_stem_of_dotless(name_stem(name));
}

/// A factory finds its status socket from the socket name its registration
/// was confirmed with: taking the socket path of that name (its stem, inside
/// the temporary directory) gives the name back, when the temporary
/// directory is absolute and holds no dot.
pub proof fn lemma_factory_finds_registration_socket(temp_dir: Seq<char>, factory_id: u128)
    requires
        temp_dir.len() > 0,
        temp_dir[0] == '/',
        !temp_dir.contains('.'),
    ensures
        joined_path(temp_dir, name_stem(joined_path(temp_dir, uuid_text(factory_id))))
            == joined_path(temp_dir, uuid_text(factory_id)),
{
    let u: Seq<char> = uuid_text(factory_id);
    lemma_uuid_text_dotless(factory_id);
    assert(u[0] != '/');
    let p: Seq<char> = joined_path(temp_dir, u);
    assert(p[0] == '/');
    assert(!p.contains('.')) by {
        if p.contains('.') {
            let k: int = choose|k: int| 0 <= k < p.len() && p[k] == '.';
            if temp_dir.last() == '/' {
                assert(p == temp_dir + u);
                if k < temp_dir.len() {
                    assert(temp_dir[k] == '.');
                    assert(temp_dir.contains('.'));
                } else {
                    assert(u[k - temp_dir.len()] == '.');
                    assert(u.contains('.'));
                }
            } else {
                assert(p == temp_dir + seq!['/'] + u);
                if k < temp_dir.len() {
                    assert(temp_dir[k] == '.');
                    assert(temp_dir.contains('.'));
                } else if k == temp_dir.len() {
                    assert(p[k] == '/');
                } else {
                    assert(u[k - temp_dir.len() - 1] == '.');
                    assert(u.contains('.'));
                }
            }
        }
    }
    lemma_stem_of_dotless(p);
}

/// Starting and then stopping the probe of a factory that had none leaves
/// the set of probes as it was.
pub proof fn lemma_probe_start_then_stop(active: Set<u128>, factory_id: u128)
    requires
        !active.contains(factory_id),
    ensures
        active.insert(factory_id).remove(factory_id) == active,
{
    assert(active.insert(factory_id).remove(factory_id) =~= active);
}

} // verus!
