//! Why an operation failed.

use vstd::prelude::*;

verus! {

/// The kind of entity that an identifier names.
#[derive(Clone, Copy, Debug, PartialEq, Eq, Structural)]
pub enum EntityKind {
    Player,
    Task,
    Habit,
    Level,
}

/// The failure of an operation. Whatever the failure, the database is left as
/// it was before the operation began.
#[derive(Clone, Copy, Debug, PartialEq, Eq, Structural)]
pub enum RouteError {
    /// The entity that was asked for does not exist.
    NotFound { kind: EntityKind, id: i64 },
    /// A row refers to an owner or to a level that is missing.
    Inconsistency,
    /// The database refused a read or a write: a constraint would be broken,
    /// or no identifier is left to hand out.
    StorageFailure,
}

} // verus!
