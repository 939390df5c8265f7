//! The rules of the two request/reply exchanges: what is sent to register, and what a
//! reply means.

use vstd::prelude::*;
use crate::domain::{
    ClientType, CommandReply, CommandResult, Id, Registration, RegistrationReply,
    RegistrationResult,
};
use crate::error::CommsError;

verus! {

/// The version under which this client registers.
pub const CLIENT_VERSION: i32 = 1;

/// The name under which this client registers.
pub open spec fn client_name() -> Seq<char> {
    "Rusty"@
}

/// The message that opens the handshake: a bot, under this client's name and version.
pub fn registration() -> (request: Registration)
    ensures
        request.client_type == ClientType::Bot,
        request.id matches Some(id) && id.name@ == client_name() && id.version
            == CLIENT_VERSION,
{
    Registration {
        client_type: ClientType::Bot,
        id: Some(Id { name: "Rusty".to_owned(), version: CLIENT_VERSION }),
    }
}

/// What the server's answer to the registration comes to.
pub open spec fn registration_outcome(reply: RegistrationReply) -> Result<
    RegistrationReply,
    CommsError,
> {
    match reply.result {
        RegistrationResult::Failure => Err(CommsError::RegistrationFailure),
        RegistrationResult::Success => Ok(reply),
    }
}

/// Takes the server's answer to the registration: a refusal is an error, anything
/// else hands the answer on, with the addresses of the two channels.
pub fn accept_registration(reply: RegistrationReply) -> (outcome: Result<
    RegistrationReply,
    CommsError,
>)
    ensures
        outcome == registration_outcome(reply),
{
    match reply.result {
        RegistrationResult::Failure => Err(CommsError::RegistrationFailure),
        RegistrationResult::Success => Ok(reply),
    }
}

/// What the server's reply to a command comes to.
pub open spec fn command_outcome(reply: CommandReply) -> Result<(), CommsError> {
    match reply.result {
        CommandResult::Accepted => Ok(()),
        CommandResult::Busy => Err(CommsError::Busy),
        CommandResult::Rejected => Err(CommsError::Rejected),
    }
}

/// Takes the server's reply to a command: success where it accepted, `Busy` where it
/// asks to be tried again, `Rejected` where it declined for good.
pub fn accept_reply(reply: CommandReply) -> (outcome: Result<(), CommsError>)
    ensures
        outcome == command_outcome(reply),
{
    match reply.result {
        CommandResult::Accepted => Ok(()),
        CommandResult::Busy => Err(CommsError::Busy),
        CommandResult::Rejected => Err(CommsError::Rejected),
    }
}

/// The record of a message is its first frame; a message without frames holds none.
pub open spec fn payload_of(frames: Seq<Vec<u8>>) -> Result<Seq<u8>, CommsError> {
    if frames.len() == 0 {
        Err(CommsError::DecodeError)
    } else {
        Ok(frames[0]@)
    }
}

/// Picks the frame that holds the record out of a message from the server.
pub fn payload(frames: Vec<Vec<u8>>) -> (data: Result<Vec<u8>, CommsError>)
    ensures
        match payload_of(frames@) {
            Ok(bytes) => data matches Ok(found) && found@ == bytes,
            Err(e) => data == Err::<Vec<u8>, CommsError>(e),
        },
{
    let mut frames = frames;
    if frames.len() == 0 {
        Err(CommsError::DecodeError)
    } else {
        Ok(frames.swap_remove(0))
    }
}

} // verus!
