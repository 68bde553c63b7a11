//! The orchestrator's factory table and its side of the registration
//! protocol. Handling a registration message alternates decisions, made here,
//! with socket work and event publishing, done by the caller: each decision
//! returns the next thing the caller has to do.

use vstd::prelude::*;
use crate::factories::{
    table_entries, table_get, table_insert, table_new, table_set_status, table_snapshot,
    FactoryConnection, FactoryStatus,
};
use crate::messages::{FactoryChangeEvent, RegistrationMessage};
use crate::naming::{joined_path, registration_socket_path, uuid_text};
use crate::status::concat_text;

verus! {

/// Where the orchestrator listens for registrations.
#[derive(Debug, Clone, PartialEq, Eq)]
pub struct OrchestratorConfig {
    pub registration_socket: String,
}

/// `id` has the layout of a version 4 UUID: the version bits say 4 (random)
/// and the variant bits say RFC 4122.
pub open spec fn is_version4_uuid(id: u128) -> bool {
    &&& (id >> 76u128) & 0xf == 4
    &&& (id >> 62u128) & 0x3 == 2
}

/// `uuid::Uuid::new_v4` as a 128-bit value: random, apart from the version
/// and variant bits that mark it as a version 4 UUID. Like `new_v4`, it
/// panics only if the operating system's random source fails.
#[verifier::external_body]
fn new_factory_id() -> (id: u128)
    ensures
        is_version4_uuid(id),
{
    uuid::Uuid::new_v4().as_u128()
}

/// `table` with the status of `id` set to `status`, when `id` is in it.
pub open spec fn set_status_in(
    table: Map<u128, FactoryConnection>,
    id: u128,
    status: FactoryStatus,
) -> Map<u128, FactoryConnection> {
    if table.dom().contains(id) {
        table.insert(id, table[id].with_status(status))
    } else {
        table
    }
}

/// The entry a registration adds: the factory's name, running.
pub open spec fn registered_entry(factory_name: String) -> FactoryConnection {
    FactoryConnection { name: factory_name, status: FactoryStatus::Running }
}

/// What the caller does next while a registration message is handled.
#[derive(Debug, PartialEq, Eq)]
pub enum RegistrationStep {
    /// Remove any stale file at `socket_path`, open the status socket of the
    /// new factory there, then call `register_factory` with the outcome.
    OpenStatusSocket { factory_id: u128, factory_name: String, socket_path: String },
    /// Publish `FactoryChangeEvent::Added(factory_id)`, then call
    /// `complete_registration` with the outcome.
    PublishAdded { factory_id: u128, socket_path: String },
    /// Publish `event` (a failure to publish changes nothing), then send `reply`.
    Announce { event: FactoryChangeEvent, reply: Result<RegistrationMessage, RegistrationMessage> },
    /// Send `reply`.
    Reply(Result<RegistrationMessage, RegistrationMessage>),
}

/// `reply` is an error reply whose text is `text`.
pub open spec fn error_reply_with(
    reply: Result<RegistrationMessage, RegistrationMessage>,
    text: Seq<char>,
) -> bool {
    reply matches Err(RegistrationMessage::Error { error }) && error@ == text
}

/// The message sent back on the registration socket for `reply`: the
/// message it holds, whether it is a success or an error.
pub fn reply_message(reply: Result<RegistrationMessage, RegistrationMessage>) -> (message:
    RegistrationMessage)
    ensures
        match reply {
            Ok(m) => message == m,
            Err(m) => message == m,
        },
{
    match reply {
        Ok(m) => m,
        Err(m) => m,
    }
}

/// The orchestrator's state: the table of registered factories and the
/// configuration it runs with.
pub struct Orchestrator {
    factories: papaya::HashMap<u128, FactoryConnection>,
    config: OrchestratorConfig,
}

impl View for Orchestrator {
    type V = Map<u128, FactoryConnection>;

    closed spec fn view(&self) -> Map<u128, FactoryConnection> {
        table_entries(self.factories)
    }
}

impl Orchestrator {
    /// The configuration the orchestrator runs with.
    pub closed spec fn configuration(&self) -> OrchestratorConfig {
        self.config
    }

    /// An orchestrator with no factories.
    pub fn new(config: OrchestratorConfig) -> (orchestrator: Self)
        ensures
            orchestrator@ == Map::<u128, FactoryConnection>::empty(),
            orchestrator.configuration() == config,
    {
        Orchestrator { factories: table_new(), config }
    }

    /// A copy of the table of factories as it is now, for the tasks that
    /// list it: each registered factory exactly once, with its id, in no
    /// particular order. Later changes do not show in the copy; a live view
    /// is shared by sharing the orchestrator itself.
    pub fn factories_snapshot(&self) -> (entries: Vec<(u128, FactoryConnection)>)
        ensures
            forall|i: int|
                0 <= i < entries@.len() ==> self@.dom().contains(#[trigger] entries@[i].0)
                    && self@[entries@[i].0] == entries@[i].1,
            forall|i: int, j: int|
                0 <= i < j < entries@.len() ==> #[trigger] entries@[i].0 != #[trigger] entries@[j].0,
            forall|k: u128|
                self@.dom().contains(k) ==> exists|i: int|
                    0 <= i < entries@.len() && #[trigger] entries@[i].0 == k,
    {
        table_snapshot(&self.factories)
    }

    /// The configuration the orchestrator runs with.
    pub fn config(&self) -> (config: &OrchestratorConfig)
        ensures
            *config == self.configuration(),
    {
        &self.config
    }

    /// The entry of the factory `factory_id`, if it is registered.
    pub fn factory(&self, factory_id: u128) -> (found: Option<FactoryConnection>)
        ensures
            found == (if self@.dom().contains(factory_id) {
                Some(self@[factory_id])
            } else {
                None
            }),
    {
        table_get(&self.factories, factory_id)
    }

    /// Records that the factory `factory_id` is now in `status`; a factory
    /// that is not registered stays unregistered. Returns whether it was.
    pub fn apply_status_change(&mut self, factory_id: u128, status: FactoryStatus) -> (found:
        bool)
        ensures
            found == old(self)@.dom().contains(factory_id),
            final(self)@ == set_status_in(old(self)@, factory_id, status),
            final(self).configuration() == old(self).configuration(),
    {
        table_set_status(&mut self.factories, factory_id, status)
    }

    /// The first decision on a message received on the registration socket.
    /// `temp_dir` is the system's temporary directory, where status sockets live.
    ///
    /// A registration picks a fresh random id and asks for the factory's
    /// status socket; an unregistration marks the factory stopped and
    /// announces its removal; an error message is sent back as the error;
    /// anything else is answered with an "Unknown message" error.
    pub fn handle_message(&mut self, message: RegistrationMessage, temp_dir: &str) -> (step:
        RegistrationStep)
        ensures
            final(self).configuration() == old(self).configuration(),
            match message {
                RegistrationMessage::Register { factory_name } => {
                    &&& step matches RegistrationStep::OpenStatusSocket {
                        factory_id,
                        factory_name: name,
                        socket_path,
                    }
                    &&& name == factory_name
                    &&& socket_path@ == joined_path(temp_dir@, uuid_text(factory_id))
                    &&& is_version4_uuid(factory_id)
                    &&& final(self)@ == old(self)@
                },
                RegistrationMessage::Unregister { factory_id } => {
                    &&& step == RegistrationStep::Announce {
                        event: FactoryChangeEvent::Removed(factory_id),
                        reply: Ok(RegistrationMessage::Unregistered),
                    }
                    &&& final(self)@ == set_status_in(
                        old(self)@,
                        factory_id,
                        FactoryStatus::Stopped,
                    )
                },
                RegistrationMessage::Error { .. } => {
                    &&& step == RegistrationStep::Reply(Err(message))
                    &&& final(self)@ == old(self)@
                },
                _ => {
                    &&& step matches RegistrationStep::Reply(reply)
                    &&& error_reply_with(reply, "Unknown message"@)
                    &&& final(self)@ == old(self)@
                },
            },
    {
        match message {
            RegistrationMessage::Register { factory_name } => {
                let factory_id: u128 = new_factory_id();
                let socket_path: String = registration_socket_path(temp_dir, factory_id);
                RegistrationStep::OpenStatusSocket { factory_id, factory_name, socket_path }
            },
            RegistrationMessage::Unregister { factory_id } => {
                self.apply_status_change(factory_id, FactoryStatus::Stopped);
                RegistrationStep::Announce {
                    event: FactoryChangeEvent::Removed(factory_id),
                    reply: Ok(RegistrationMessage::Unregistered),
                }
            },
            RegistrationMessage::Error { error } => RegistrationStep::Reply(
                Err(RegistrationMessage::Error { error }),
            ),
            _ => RegistrationStep::Reply(
                Err(RegistrationMessage::Error { error: String::from_str("Unknown message") }),
            ),
        }
    }

    /// The decision once the status socket of a new factory was opened, or
    /// failed to open with the error text `detail`: a failure is answered with
    /// an error; otherwise the factory enters the table, running, and its
    /// addition is to be published.
    pub fn register_factory(
        &mut self,
        factory_id: u128,
        factory_name: String,
        socket_path: String,
        opened: Result<(), String>,
    ) -> (step: RegistrationStep)
        ensures
            final(self).configuration() == old(self).configuration(),
            match opened {
                Ok(()) => {
                    &&& step == RegistrationStep::PublishAdded { factory_id, socket_path }
                    &&& final(self)@ == old(self)@.insert(
                        factory_id,
                        registered_entry(factory_name),
                    )
                },
                Err(detail) => {
                    &&& step matches RegistrationStep::Reply(reply)
                    &&& error_reply_with(reply, "Failed to open socket: "@ + detail@)
                    &&& final(self)@ == old(self)@
                },
            },
    {
        match opened {
            Ok(()) => {
                table_insert(
                    &mut self.factories,
                    factory_id,
                    FactoryConnection { name: factory_name, status: FactoryStatus::Running },
                );
                RegistrationStep::PublishAdded { factory_id, socket_path }
            },
            Err(detail) => RegistrationStep::Reply(
                Err(
                    RegistrationMessage::Error {
                        error: concat_text("Failed to open socket: ", detail.as_str()),
                    },
                ),
            ),
        }
    }

    /// The reply once the addition of the factory `factory_id` was published,
    /// or failed to publish with the error text `detail`: success confirms the
    /// registration with the factory's id and socket; a failure marks the
    /// factory dead and answers with an error.
    pub fn complete_registration(
        &mut self,
        factory_id: u128,
        socket_path: String,
        published: Result<(), String>,
    ) -> (reply: Result<RegistrationMessage, RegistrationMessage>)
        ensures
            final(self).configuration() == old(self).configuration(),
            match published {
                Ok(()) => {
                    &&& reply == Ok::<RegistrationMessage, RegistrationMessage>(
                        RegistrationMessage::Registered { factory_id, socket_name: socket_path },
                    )
                    &&& final(self)@ == old(self)@
                },
                Err(detail) => {
                    &&& error_reply_with(reply, "Failed to send registration event: "@ + detail@)
                    &&& final(self)@ == set_status_in(old(self)@, factory_id, FactoryStatus::Dead)
                },
            },
    {
        match published {
            Ok(()) => Ok(RegistrationMessage::Registered { factory_id, socket_name: socket_path }),
            Err(detail) => {
                self.apply_status_change(factory_id, FactoryStatus::Dead);
                Err(
                    RegistrationMessage::Error {
                        error: concat_text("Failed to send registration event: ", detail.as_str()),
                    },
                )
            },
        }
    }
}

} // verus!
