//! Error taxonomy of the engine.
//!
//! Every operation reports failure as a [`GameError`]: a machine-matchable
//! kind together with a human-readable message. Contracts throughout the
//! crate pin down the kind; the message is free-form text for display.

use vstd::prelude::*;

verus! {

/// The kind of a failure, for callers that need to branch.
#[derive(Clone, Copy, Debug, PartialEq, Eq, Structural)]
pub enum ErrorKind {
    /// A referenced catalog or store row does not exist.
    NotFound,
    /// Not enough of a spendable resource (mana, gold, stat points).
    InsufficientResource,
    /// A caller-supplied name or state was not recognized.
    InvalidState,
    /// The persistence collaborator failed a read or write.
    StoreFailure,
}

/// A failure: its kind plus a display message.
#[derive(Clone, Debug)]
pub struct GameError {
    pub kind: ErrorKind,
    pub message: String,
}

impl GameError {
    pub fn not_found(message: String) -> (e: GameError)
        ensures
            e.kind == ErrorKind::NotFound,
    {
        GameError { kind: ErrorKind::NotFound, message }
    }

    pub fn insufficient_resource(message: String) -> (e: GameError)
        ensures
            e.kind == ErrorKind::InsufficientResource,
    {
        GameError { kind: ErrorKind::InsufficientResource, message }
    }

    pub fn invalid_state(message: String) -> (e: GameError)
        ensures
            e.kind == ErrorKind::InvalidState,
    {
        GameError { kind: ErrorKind::InvalidState, message }
    }

    pub fn store_failure(message: String) -> (e: GameError)
        ensures
            e.kind == ErrorKind::StoreFailure,
    {
        GameError { kind: ErrorKind::StoreFailure, message }
    }

    /// The display text of this error.
    pub fn describe(&self) -> (m: &String)
        ensures
            m == &self.message,
    {
        &self.message
    }
}

} // verus!
