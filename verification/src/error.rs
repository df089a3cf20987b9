//! The failures a request or a relay can end in.

use vstd::prelude::*;

verus! {

/// Why an operation did not succeed.
#[derive(Debug, Clone, PartialEq, Eq)]
pub enum ActorError {
    /// Durable storage could not be read or written.
    StorageUnavailable,
    /// The placement collaborator gave no handle to the room.
    ActorUnreachable,
    /// The request named an operation the room does not have; the selector
    /// is carried along as it was received.
    UnsupportedOperation(String),
    /// A connection's peer is gone.
    ConnectionLost,
}

/// The mathematical counterpart of [`ActorError`].
pub enum Failure {
    StorageUnavailable,
    ActorUnreachable,
    UnsupportedOperation(Seq<char>),
    ConnectionLost,
}

impl View for ActorError {
    type V = Failure;

    open spec fn view(&self) -> Failure {
        match self {
            ActorError::StorageUnavailable => Failure::StorageUnavailable,
            ActorError::ActorUnreachable => Failure::ActorUnreachable,
            ActorError::UnsupportedOperation(selector) => Failure::UnsupportedOperation(selector@),
            ActorError::ConnectionLost => Failure::ConnectionLost,
        }
    }
}

} // verus!
