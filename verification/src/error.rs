//! The kinds of failure and how far each reaches.
//!
//! Configuration, transport and state errors end the run. Protocol and I/O
//! errors stay with the request that met them: the peer is told, and the
//! other transfers go on.

use vstd::prelude::*;
use crate::manifest::ConfigError;
use crate::state::StateError;

verus! {

/// A request that the protocol refuses.
#[derive(Clone, Copy, Debug, PartialEq, Eq, Structural)]
pub enum ProtocolError {
    /// The request path does not address an upload.
    UnknownTarget,
    /// The manifest holds no secret of that tag.
    UnknownTag,
    /// The body is longer than allowed, or its length was not declared.
    PayloadTooLarge,
    /// The secret has already been received.
    AlreadyCompleted,
    /// Another upload for the same secret is running.
    UploadInFlight,
}

/// A local failure while a body is received and stored.
#[derive(Clone, Copy, Debug, PartialEq, Eq, Structural)]
pub enum IoError {
    /// The temporary file could not be created.
    Create,
    /// The body could not be read.
    Read,
    /// The body ended before its declared length.
    Truncated,
    /// The temporary file could not be written.
    Write,
    /// Ownership could not be set.
    SetOwner,
    /// Permission bits could not be set.
    SetMode,
    /// The temporary file could not be renamed onto the destination.
    Rename,
    /// No body bytes arrived within the idle window.
    Stalled,
    /// The handler was cancelled at shutdown.
    Cancelled,
}

/// A failure of the chosen transport.
#[derive(Clone, Copy, Debug, PartialEq, Eq, Structural)]
pub enum TransportError {
    /// No connection within the timeout.
    Timeout,
    /// The peer refused the connection.
    Refused,
    /// The address cannot be reached.
    Unreachable,
    /// The address is held by a live listener.
    AddressInUse,
}

/// Why an upload did not end in `Created`.
#[derive(Clone, Copy, Debug, PartialEq, Eq, Structural)]
pub enum Rejection {
    Protocol(ProtocolError),
    Io(IoError),
}

/// Any failure of a run.
#[derive(Clone, Copy, Debug, PartialEq, Eq, Structural)]
pub enum Failure {
    Config(ConfigError),
    Transport(TransportError),
    Protocol(ProtocolError),
    Io(IoError),
    State(StateError),
}

impl Failure {
    /// Whether the failure ends the whole run.
    pub open spec fn fatal(self) -> bool {
        self is Config || self is Transport || self is State
    }

    /// Whether the failure ends the whole run. A failure that does not is
    /// contained in the handler that met it.
    pub fn is_fatal(&self) -> (fatal: bool)
        ensures
            fatal == self.fatal(),
    {
        match self {
            Failure::Config(_) => true,
            Failure::Transport(_) => true,
            Failure::State(_) => true,
            Failure::Protocol(_) => false,
            Failure::Io(_) => false,
        }
    }
}

impl Rejection {
    /// The rejection as a failure of the run: always a local one.
    pub fn as_failure(&self) -> (failure: Failure)
        ensures
            !failure.fatal(),
            match *self {
                Rejection::Protocol(e) => failure == Failure::Protocol(e),
                Rejection::Io(e) => failure == Failure::Io(e),
            },
    {
        match self {
            Rejection::Protocol(e) => Failure::Protocol(*e),
            Rejection::Io(e) => Failure::Io(*e),
        }
    }
}

} // verus!
