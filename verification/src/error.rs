//! Errors of connections and sessions.

use vstd::prelude::*;

verus! {

/// The broad reason for an I/O failure.
#[derive(Clone, Copy, PartialEq, Eq, Hash, Debug, Structural)]
pub enum ErrorKind {
    NotFound,
    PermissionDenied,
    ConnectionRefused,
    ConnectionReset,
    ConnectionAborted,
    NotConnected,
    AddrInUse,
    AddrNotAvailable,
    BrokenPipe,
    WouldBlock,
    InvalidInput,
    InvalidData,
    TimedOut,
    Interrupted,
    UnexpectedEof,
    Other,
}

/// A failure of an operation on a connection, a listener or a session.
#[derive(Clone, Copy, PartialEq, Eq, Hash, Debug)]
pub struct IoError {
    /// The broad reason.
    pub kind: ErrorKind,
    /// The error number of the operating system, where the failure came from it.
    pub code: Option<i32>,
}

impl IoError {
    /// An error of the given kind that the operating system had no part in.
    pub fn from_kind(kind: ErrorKind) -> (e: IoError)
        ensures
            e == (IoError { kind, code: None }),
    {
        IoError { kind, code: None }
    }

    /// An error of the given kind with the operating system's number for it.
    pub fn from_os(kind: ErrorKind, code: i32) -> (e: IoError)
        ensures
            e == (IoError { kind, code: Some(code) }),
    {
        IoError { kind, code: Some(code) }
    }

    pub fn kind(&self) -> (k: ErrorKind)
        ensures
            k == self.kind,
    {
        self.kind
    }

    /// Whether the operation only found nothing to do right now and may be
    /// tried again once readiness is signalled anew.
    pub fn would_block(&self) -> (b: bool)
        ensures
            b == (self.kind == ErrorKind::WouldBlock),
    {
        self.kind == ErrorKind::WouldBlock
    }
}

/// Why a session could not be set up.
#[derive(Clone, Copy, PartialEq, Eq, Hash, Debug)]
pub enum SessionError<E> {
    /// The local identity key has no counterpart in the key space of the
    /// handshake. This is a fault of the configuration, not of the network.
    InvalidLocalKey,
    /// The identity that the peer is expected to have has no counterpart in
    /// the key space of the handshake.
    InvalidPeerKey,
    /// The handshake could not be begun.
    Handshake,
    /// The connection could not be made or prepared.
    Connection(E),
}

impl SessionError<IoError> {
    /// The same failure as an I/O error: a key without a counterpart in the
    /// key space of the handshake counts as invalid input.
    pub open spec fn as_io(self) -> IoError {
        match self {
            SessionError::Connection(err) => err,
            _ => IoError { kind: ErrorKind::InvalidInput, code: None },
        }
    }

    /// The same failure as an I/O error: a key without a counterpart in the
    /// key space of the handshake counts as invalid input.
    #[verifier::when_used_as_spec(as_io)]
    pub fn into_io(self) -> (e: IoError)
        ensures
            e == self.as_io(),
    {
        match self {
            SessionError::Connection(err) => err,
            _ => IoError::from_kind(ErrorKind::InvalidInput),
        }
    }
}

} // verus!
