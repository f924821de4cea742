use vstd::prelude::*;

verus! {

/// The failure taxonomy of the persistence layer.
///
/// `NotPersisted` and `MissingParent` are caller-side conditions detected
/// while building a statement; `Storage` carries an opaque message from the
/// database engine, uninterpreted by this crate. "Not found" (an update or
/// delete that affected zero rows) is not an error: it is the `Ok(false)`
/// outcome of [`crate::contract::finish_modify`].
#[derive(Debug, Clone, PartialEq, Eq)]
pub enum DbError {
    /// Update or delete attempted on an entity that was never inserted.
    NotPersisted,
    /// A required back-reference to a parent entity could not be resolved.
    MissingParent,
    /// The database engine reported a failure; the message is opaque.
    Storage(String),
}

} // verus!
