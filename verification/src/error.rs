use vstd::prelude::*;

verus! {

/// What can go wrong in the storage layer and in the services built on it.
#[derive(Clone, Copy, Debug, PartialEq, Eq, Structural)]
pub enum Error {
    /// A backend answered a read with a failure, whatever its cause.
    FilesystemReadFailure,
    /// A backend answered a write with a failure, whatever its cause.
    FilesystemWriteFailure,
    /// Key material does not fit into a serialized key.
    InternalError,
    /// No key is stored under the handle.
    NoSuchKey,
    /// The stored key is of another kind than the one asked for.
    WrongKeyKind,
    /// A stored record could not be encoded or decoded.
    CborError,
}

/// Why the three filesystems were not bound.
#[derive(Clone, Copy, Debug, PartialEq, Eq, Structural)]
pub enum MountError {
    /// The store has not been claimed.
    NotClaimed,
    /// The filesystems are bound already: they are bound once.
    AlreadyMounted,
    /// The medium at this location holds no filesystem that can be mounted.
    Unmountable(crate::types::StorageLocation),
}

} // verus!
