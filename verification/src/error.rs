//! The errors of the startup and of the handshake.

use vstd::prelude::*;

verus! {

/// What can go wrong while a role is brought up or a connection is set up.
#[derive(Clone, Debug, PartialEq, Eq)]
pub enum Error {
    /// The transport failed or the peer closed the connection during the handshake.
    HandshakeIo,
    /// The peer answered the handshake with a message that is neither an
    /// acknowledgment nor a refusal.
    HandshakeProtocol,
    /// The peer refused the handshake; the bytes are the reason it gave.
    HandshakeRejected(Vec<u8>),
    /// The task supervisor could not be reached (it was torn down, or its lock
    /// was poisoned).
    SupervisionFailed,
    /// A role failed to start and there is no way to recover.
    Unrecoverable,
    /// An address could not be resolved or a socket failed during startup.
    Io,
    /// The peer used a protocol capability that this client does not implement.
    Unsupported,
}

impl Error {
    /// A short human-readable description of the error.
    pub fn message(&self) -> (s: &'static str)
        ensures
            s@ == (match *self {
                Error::HandshakeIo => "connection closed during handshake"@,
                Error::HandshakeProtocol => "unexpected handshake response"@,
                Error::HandshakeRejected(_) => "handshake rejected by peer"@,
                Error::SupervisionFailed => "task supervisor unreachable"@,
                Error::Unrecoverable => "unrecoverable startup failure"@,
                Error::Io => "address resolution or socket failure"@,
                Error::Unsupported => "unsupported protocol capability"@,
            }),
    {
        match self {
            Error::HandshakeIo => "connection closed during handshake",
            Error::HandshakeProtocol => "unexpected handshake response",
            Error::HandshakeRejected(_) => "handshake rejected by peer",
            Error::SupervisionFailed => "task supervisor unreachable",
            Error::Unrecoverable => "unrecoverable startup failure",
            Error::Io => "address resolution or socket failure",
            Error::Unsupported => "unsupported protocol capability",
        }
    }
}

} // verus!
