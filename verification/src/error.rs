use vstd::prelude::*;

verus! {

/// What can go wrong in the life of a client.
#[derive(Clone, Copy, Debug, PartialEq, Eq, Structural)]
pub enum ClientError {
    /// The handshake with the correlation server did not complete.
    RegistrationFailed,
    /// A poll round trip did not complete.
    PollFailed,
    /// A structured entry lacks a field that its protocol requires.
    DecodeError,
}

impl ClientError {
    /// A short description of the error, for a caller that reports it.
    pub fn message(&self) -> (r: String)
        ensures
            r@ == match *self {
                ClientError::RegistrationFailed => "registration with the server failed"@,
                ClientError::PollFailed => "polling the server failed"@,
                ClientError::DecodeError => "a log entry lacks a required field"@,
            },
    {
        match self {
            ClientError::RegistrationFailed => "registration with the server failed".to_owned(),
            ClientError::PollFailed => "polling the server failed".to_owned(),
            ClientError::DecodeError => "a log entry lacks a required field".to_owned(),
        }
    }
}

} // verus!
