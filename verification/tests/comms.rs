use rusty_hunter::comms::{accept_registration, accept_reply, payload, registration, CLIENT_VERSION};
use rusty_hunter::domain::{
    ClientType, CommandReply, CommandResult, Id, RegistrationReply, RegistrationResult,
};
use rusty_hunter::error::{CommsError, ControlError};

#[test]
fn registration_names_the_bot() {
    let request = registration();
    assert_eq!(request.client_type, ClientType::Bot);
    assert_eq!(request.id, Some(Id { name: "Rusty".to_string(), version: 1 }));
    assert_eq!(CLIENT_VERSION, 1);
}

#[test]
fn refused_registration_is_an_error() {
    let reply = RegistrationReply {
        result: RegistrationResult::Failure,
        cmd_url: "tcp://127.0.0.1:5555".to_string(),
        event_url: "tcp://127.0.0.1:5556".to_string(),
    };
    assert_eq!(accept_registration(reply), Err(CommsError::RegistrationFailure));
}

#[test]
fn granted_registration_hands_on_the_addresses() {
    let reply = RegistrationReply {
        result: RegistrationResult::Success,
        cmd_url: "tcp://127.0.0.1:5555".to_string(),
        event_url: "tcp://127.0.0.1:5556".to_string(),
    };
    let accepted = accept_registration(reply.clone()).unwrap();
    assert_eq!(accepted, reply);
    assert_eq!(accepted.cmd_url, "tcp://127.0.0.1:5555");
    assert_eq!(accepted.event_url, "tcp://127.0.0.1:5556");
}

#[test]
fn command_replies_are_classified() {
    assert_eq!(accept_reply(CommandReply { result: CommandResult::Accepted }), Ok(()));
    assert_eq!(accept_reply(CommandReply { result: CommandResult::Busy }), Err(CommsError::Busy));
    assert_eq!(
        accept_reply(CommandReply { result: CommandResult::Rejected }),
        Err(CommsError::Rejected)
    );
}

#[test]
fn only_busy_is_recoverable() {
    assert!(CommsError::Busy.recoverable());
    for failure in [
        CommsError::Rejected,
        CommsError::DecodeError,
        CommsError::ConnectionError,
        CommsError::RegistrationFailure,
    ] {
        assert!(!failure.recoverable());
    }
}

#[test]
fn payload_is_the_first_frame() {
    assert_eq!(payload(vec![vec![1, 2, 3]]), Ok(vec![1, 2, 3]));
    assert_eq!(payload(vec![vec![8], vec![9, 9], vec![]]), Ok(vec![8]));
    assert_eq!(payload(vec![vec![], vec![7]]), Ok(vec![]));
}

#[test]
fn message_without_frames_does_not_decode() {
    assert_eq!(payload(Vec::new()), Err(CommsError::DecodeError));
}

#[test]
fn failures_have_their_texts() {
    assert_eq!(CommsError::RegistrationFailure.message(), "Server refused our registration");
    assert_eq!(CommsError::Busy.message(), "Server busy");
    assert_eq!(CommsError::Rejected.message(), "Server rejected command");
    assert_eq!(CommsError::DecodeError.message(), "Failed to decode message");
    assert_eq!(CommsError::ConnectionError.message(), "Connection to server failed");
    assert_eq!(ControlError::MissingGeometryField.message(), "point missing");
    assert_eq!(ControlError::Channel(CommsError::Busy).message(), "Server busy");
}
