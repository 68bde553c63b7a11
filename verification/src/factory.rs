//! The factory's side of the registration protocol.

use vstd::prelude::*;
use crate::messages::RegistrationMessage;

verus! {

/// What a factory makes of the orchestrator's answer to its registration:
/// a confirmation gives the factory's id and the name of its status socket;
/// any other answer is handed back as unexpected.
pub fn registration_confirmation(response: RegistrationMessage) -> (outcome: Result<
    (u128, String),
    RegistrationMessage,
>)
    ensures
        match response {
            RegistrationMessage::Registered { factory_id, socket_name } => outcome == Ok::<
                (u128, String),
                RegistrationMessage,
            >((factory_id, socket_name)),
            _ => outcome == Err::<(u128, String), RegistrationMessage>(response),
        },
{
    match response {
        RegistrationMessage::Registered { factory_id, socket_name } => Ok((factory_id, socket_name)),
        other => Err(other),
    }
}

} // verus!
