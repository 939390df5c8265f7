//! What can go wrong on the channels and in the controller.

use vstd::prelude::*;

verus! {

/// A failure on one of the channels to the server.
#[derive(Clone, Copy, Debug, PartialEq, Eq, Structural)]
pub enum CommsError {
    /// The server refused the registration.
    RegistrationFailure,
    /// A channel could not be opened or broke down.
    ConnectionError,
    /// A frame from the server could not be read as the record it should hold.
    DecodeError,
    /// The server declined a command for the moment; it may be tried again.
    Busy,
    /// The server declined a command for good.
    Rejected,
}

impl CommsError {
    /// The text by which the failure is reported.
    pub open spec fn text(self) -> Seq<char> {
        match self {
            CommsError::RegistrationFailure => "Server refused our registration"@,
            CommsError::ConnectionError => "Connection to server failed"@,
            CommsError::DecodeError => "Failed to decode message"@,
            CommsError::Busy => "Server busy"@,
            CommsError::Rejected => "Server rejected command"@,
        }
    }

    /// The text by which the failure is reported.
    pub fn message(&self) -> (message: String)
        ensures
            message@ == self.text(),
    {
        match self {
            CommsError::RegistrationFailure => "Server refused our registration".to_owned(),
            CommsError::ConnectionError => "Connection to server failed".to_owned(),
            CommsError::DecodeError => "Failed to decode message".to_owned(),
            CommsError::Busy => "Server busy".to_owned(),
            CommsError::Rejected => "Server rejected command".to_owned(),
        }
    }

    /// Whether the failure is passing, so that the controller may carry on.
    pub open spec fn is_recoverable(self) -> bool {
        self == CommsError::Busy
    }

    /// Whether the failure is passing, so that the controller may carry on.
    pub fn recoverable(&self) -> (recoverable: bool)
        ensures
            recoverable == self.is_recoverable(),
    {
        match self {
            CommsError::Busy => true,
            _ => false,
        }
    }
}

/// A failure that stops the controller.
#[derive(Clone, Copy, Debug, PartialEq, Eq, Structural)]
pub enum ControlError {
    /// A tank of a scan lacked the pose that a targeting solution needs.
    MissingGeometryField,
    /// A channel failed.
    Channel(CommsError),
}

impl ControlError {
    /// The text by which the failure is reported.
    pub open spec fn text(self) -> Seq<char> {
        match self {
            ControlError::MissingGeometryField => "point missing"@,
            ControlError::Channel(e) => e.text(),
        }
    }

    /// The text by which the failure is reported.
    pub fn message(&self) -> (message: String)
        ensures
            message@ == self.text(),
    {
        match self {
            ControlError::MissingGeometryField => "point missing".to_owned(),
            ControlError::Channel(e) => e.message(),
        }
    }
}

} // verus!
