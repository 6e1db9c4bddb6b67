//! Player progression for a gamified habit and task tracker.
//!
//! Players earn experience by completing tasks and by repeating habits, and
//! rise through a fixed list of levels as the experience adds up. This crate
//! holds the rules of that game and proves what they promise:
//!
//! - [`level`] has the level catalog and the leveling rule itself;
//! - [`player`], [`task`] and [`habit`] have the entities and what can be
//!   done with each of them;
//! - [`database`] keeps the rows, in memory, and [`table`] is what a table
//!   is made of;
//! - [`routes`] has the operations that start from an identifier;
//! - [`ops`] says what the tools of the workspace run, and
//!   [`database_utils`] where the database is found;
//! - [`model`] says in mathematical terms what every operation does to the
//!   database, and [`laws`] proves what follows from it.
//!
//! Every operation either succeeds as a whole or fails and leaves the
//! database as it was. Completing a task marks the task and rewards its
//! owner, both or neither, and does so once however often it is called.
//! Repeating a habit rewards the owner every time. After every operation
//! each player has less experience than the player's level asks for.
//!
//! Two things are decided here that might have been decided otherwise. A
//! player cannot rise past the last level of the catalog: a gain that would
//! take the player there fails with `NotFound` and changes nothing. And the
//! sign of a gain is not looked at: experience may be taken away, but a
//! player is never left with less than none, which fails with
//! `StorageFailure`.

pub mod database;
pub mod database_utils;
pub mod error;
pub mod habit;
pub mod ids;
pub mod laws;
pub mod level;
pub mod model;
pub mod ops;
pub mod player;
pub mod routes;
pub mod table;
pub mod task;
