//! The errors of the protocol core.

use vstd::prelude::*;

verus! {

/// Why a wire payload is no message.
#[derive(Debug, Clone, Copy, PartialEq, Eq, Structural)]
pub enum DecodeError {
    /// The frame is no data frame with text.
    NotText,
    /// The text is no JSON document.
    NotJson,
    /// The document is no object with a member `type`.
    MissingDiscriminator,
    /// The member `type` names none of the four kinds of message.
    UnknownDiscriminator,
    /// A member that the kind requires is missing or has the wrong shape.
    InvalidPayload,
}

/// Why an operation of the core failed.
#[derive(Debug, Clone, Copy, PartialEq, Eq, Structural)]
pub enum Error {
    /// The transport failed or the peer broke the protocol: the connection
    /// is unusable from then on.
    ConnectionBroken,
    /// The task at the other end of a channel has exited.
    ChannelClosed,
    /// The operation needs an authenticated session.
    NotAuthenticated,
    /// The session is authenticated already.
    AlreadyAuthenticated,
    /// The message received is not the one that the protocol step expects.
    UnexpectedMessageType,
    /// Every admission slot of the hub is taken.
    AdmissionExhausted,
}

impl Error {
    /// A short description of the error.
    pub fn describe(&self) -> (r: &'static str)
        ensures
            r@ == (match *self {
                Error::ConnectionBroken => "connection broken"@,
                Error::ChannelClosed => "channel closed"@,
                Error::NotAuthenticated => "not authenticated"@,
                Error::AlreadyAuthenticated => "already authenticated"@,
                Error::UnexpectedMessageType => "unexpected message type"@,
                Error::AdmissionExhausted => "admission exhausted"@,
            }),
    {
        match self {
            Error::ConnectionBroken => "connection broken",
            Error::ChannelClosed => "channel closed",
            Error::NotAuthenticated => "not authenticated",
            Error::AlreadyAuthenticated => "already authenticated",
            Error::UnexpectedMessageType => "unexpected message type",
            Error::AdmissionExhausted => "admission exhausted",
        }
    }
}

} // verus!
