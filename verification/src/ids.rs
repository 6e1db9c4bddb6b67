//! Identifiers of the stored entities.
//!
//! Every identifier is a positive integer that the database hands out when a
//! row is created. Within one table no identifier is used twice.

use vstd::prelude::*;

verus! {

/// Identifies a player.
#[derive(Clone, Copy, Debug, PartialEq, Eq, Hash, Structural)]
pub struct PlayerId(pub i64);

/// Identifies a task.
#[derive(Clone, Copy, Debug, PartialEq, Eq, Hash, Structural)]
pub struct TaskId(pub i64);

/// Identifies a habit.
#[derive(Clone, Copy, Debug, PartialEq, Eq, Hash, Structural)]
pub struct HabitId(pub i64);

/// Identifies a level. Levels are numbered from 1 without gaps.
#[derive(Clone, Copy, Debug, PartialEq, Eq, Hash, Structural)]
pub struct LevelId(pub i64);

impl LevelId {
    /// The level that follows this one.
    pub fn next_level(self) -> (next: LevelId)
        requires
            self.0 < i64::MAX,
        ensures
            next.0 == self.0 + 1,
    {
        LevelId(self.0 + 1)
    }
}

} // verus!
