//! The error kinds the service distinguishes, and which of them are fatal.

use vstd::prelude::*;

verus! {

/// Everything that can go wrong while the service runs.
///
/// Only the two startup-phase kinds abort the process; every other kind is
/// contained within the worker that met it, which logs it and carries on.
#[derive(Clone, Copy, Debug, PartialEq, Eq, Structural)]
pub enum ServerError {
    /// The initial socket bind failed (address in use, permission denied).
    Bind,
    /// Duplicating the listening socket handle for a worker failed at startup.
    ListenerClone,
    /// A single accept attempt failed; the worker continues its loop.
    Accept,
    /// Duplicating a connection handle for the read/write split failed;
    /// the connection is abandoned without echoing.
    ConnectionClone,
    /// A read or write failed during the byte transfer; the echo ends early.
    EchoIo,
}

impl ServerError {
    /// A fatal error aborts startup and terminates the process; the rest
    /// never propagate past the worker that met them.
    pub open spec fn is_fatal_spec(self) -> bool {
        self is Bind || self is ListenerClone
    }

    /// Whether this error terminates the process.
    pub fn is_fatal(&self) -> (fatal: bool)
        ensures
            fatal == self.is_fatal_spec(),
    {
        match self {
            ServerError::Bind => true,
            ServerError::ListenerClone => true,
            ServerError::Accept => false,
            ServerError::ConnectionClone => false,
            ServerError::EchoIo => false,
        }
    }

    /// The text of this error's log line.
    pub open spec fn message_spec(self) -> Seq<char> {
        match self {
            ServerError::Bind => "error binding the listening socket"@,
            ServerError::ListenerClone => "error cloning the listening socket for a worker"@,
            ServerError::Accept => "error accepting a connection"@,
            ServerError::ConnectionClone => "error cloning the connection for echoing"@,
            ServerError::EchoIo => "error while echoing bytes on the connection"@,
        }
    }

    /// A human-readable description for the log line this error produces.
    pub fn message(&self) -> (s: &'static str)
        ensures
            s@ == self.message_spec(),
    {
        match self {
            ServerError::Bind => "error binding the listening socket",
            ServerError::ListenerClone => "error cloning the listening socket for a worker",
            ServerError::Accept => "error accepting a connection",
            ServerError::ConnectionClone => "error cloning the connection for echoing",
            ServerError::EchoIo => "error while echoing bytes on the connection",
        }
    }
}

} // verus!
