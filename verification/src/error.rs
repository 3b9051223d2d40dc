//! Error kinds of the compositor's network layer.

use vstd::prelude::*;

verus! {

/// What can go wrong around the compositor socket. Messages carried by the
/// variants come from the surrounding I/O layer.
#[derive(Debug, Clone, PartialEq, Eq)]
pub enum UnixSocketError {
    /// A socket operation failed.
    Io(String),
    /// A pre-existing socket file could not be removed.
    SocketExists(String),
    /// The socket file permissions could not be set.
    PermissionError(String),
    /// A malformed or oversize frame arrived.
    SerializationError(String),
    /// An internal lookup named a connection that is not in the table.
    ConnectionNotFound(u64),
    /// A packet could not be written out.
    SendError(String),
    /// A recovery probe failed, or the worker thread could not be joined.
    RecoveryFailed(String),
}

} // verus!
