//! The mathematical model of the database and of every operation on it.
//!
//! Each operation is a function from the state before it to its result and
//! the state after it. An operation that fails has no state after it: the
//! database stays as it was.

use vstd::prelude::*;
use crate::error::{EntityKind, RouteError};
use crate::habit::{HabitDataView, HabitView};
use crate::level::{earned, gain, has_level, valid_catalog, COMPLETION_REWARD};
use crate::player::{PlayerDataView, PlayerView};
use crate::table::{ascending, find, holds, insert, next_id, replace, Row};
use crate::task::{TaskDataView, TaskView};

verus! {

/// The content of a database: the level catalog and the three tables.
#[verifier::ext_equal]
pub struct DatabaseView {
    /// Entry `i` is the experience that level `i + 1` asks for.
    pub levels: Seq<int>,
    pub players: Seq<PlayerView>,
    pub tasks: Seq<TaskView>,
    pub habits: Seq<HabitView>,
}

impl DatabaseView {
    /// A database with the given levels and no rows.
    pub open spec fn empty(levels: Seq<int>) -> DatabaseView {
        DatabaseView { levels, players: Seq::empty(), tasks: Seq::empty(), habits: Seq::empty() }
    }

    /// What holds of every database: the catalog is valid, each table has
    /// ascending identifiers, every player meets the constraints of the
    /// player table, and the players are settled. That a task's or habit's
    /// owner exists, or that the catalog has a player's level, is not asked
    /// for: the operations check it where they need it.
    pub open spec fn valid(self) -> bool {
        &&& valid_catalog(self.levels)
        &&& ascending(self.players)
        &&& ascending(self.tasks)
        &&& ascending(self.habits)
        &&& forall|i: int| 0 <= i < self.players.len() ==> (#[trigger] self.players[i]).data.valid()
        &&& self.settled()
    }

    /// Whether every player whose level the catalog has is at rest there: the
    /// experience is less than the level asks for.
    pub open spec fn settled(self) -> bool {
        forall|i: int|
            0 <= i < self.players.len() && has_level(
                self.levels,
                (#[trigger] self.players[i]).data.level,
            ) ==> self.players[i].data.xp < self.levels[self.players[i].data.level - 1]
    }

    /// All the experience that the player of this identifier has gathered
    /// since the player began.
    pub open spec fn earned_by(self, player: int) -> int {
        let stored = find(self.players, player).unwrap();
        earned(self.levels, stored.data.xp, stored.data.level)
    }

    /// A new row in the player table: a player of that name who has just
    /// begun. Fails with `StorageFailure` when no identifier is left.
    pub open spec fn insert_player(self, name: Seq<char>) -> Result<DatabaseView, RouteError> {
        if next_id(self.players) > i64::MAX {
            Err(RouteError::StorageFailure)
        } else {
            Ok(DatabaseView { players: insert(self.players, PlayerDataView::fresh(name)), ..self })
        }
    }

    /// A new row in the task table: an open task with the owner, name and
    /// description of `data`. Whether `data` says that the task is completed
    /// is not looked at: a task begins open, and only completing it makes it
    /// completed. Fails with `StorageFailure` when the task's owner is not in
    /// the player table, or no identifier is left.
    pub open spec fn insert_task(self, data: TaskDataView) -> Result<DatabaseView, RouteError> {
        if !holds(self.players, data.player) || next_id(self.tasks) > i64::MAX {
            Err(RouteError::StorageFailure)
        } else {
            Ok(
                DatabaseView {
                    tasks: insert(self.tasks, TaskDataView { completed: false, ..data }),
                    ..self
                },
            )
        }
    }

    /// A new row in the habit table. Fails with `StorageFailure` when the
    /// habit's owner is not in the player table, or no identifier is left.
    pub open spec fn insert_habit(self, data: HabitDataView) -> Result<DatabaseView, RouteError> {
        if !holds(self.players, data.player) || next_id(self.habits) > i64::MAX {
            Err(RouteError::StorageFailure)
        } else {
            Ok(DatabaseView { habits: insert(self.habits, data), ..self })
        }
    }

    /// What the level of this number asks for. Fails with `NotFound` when
    /// the catalog has no such level.
    pub open spec fn level(self, id: int) -> Result<int, RouteError> {
        if has_level(self.levels, id) {
            Ok(self.levels[id - 1])
        } else {
            Err(RouteError::NotFound { kind: EntityKind::Level, id: id as i64 })
        }
    }

    /// The player of this identifier. Fails with `NotFound` when there is no
    /// such player, and with `Inconsistency` when the catalog lacks the
    /// player's level.
    pub open spec fn player(self, id: int) -> Result<PlayerView, RouteError> {
        match find(self.players, id) {
            None => Err(RouteError::NotFound { kind: EntityKind::Player, id: id as i64 }),
            Some(player) => if has_level(self.levels, player.data.level) {
                Ok(player)
            } else {
                Err(RouteError::Inconsistency)
            },
        }
    }

    /// All players, in the order of the table. Fails with `Inconsistency`
    /// when the catalog lacks the level of one of them.
    pub open spec fn all_players(self) -> Result<Seq<PlayerView>, RouteError> {
        if forall|i: int|
            0 <= i < self.players.len() ==> has_level(
                self.levels,
                (#[trigger] self.players[i]).data.level,
            ) {
            Ok(self.players)
        } else {
            Err(RouteError::Inconsistency)
        }
    }

    /// The task of this identifier. Fails with `NotFound` when there is none.
    pub open spec fn task(self, id: int) -> Result<TaskView, RouteError> {
        match find(self.tasks, id) {
            None => Err(RouteError::NotFound { kind: EntityKind::Task, id: id as i64 }),
            Some(task) => Ok(task),
        }
    }

    /// The habit of this identifier. Fails with `NotFound` when there is
    /// none.
    pub open spec fn habit(self, id: int) -> Result<HabitView, RouteError> {
        match find(self.habits, id) {
            None => Err(RouteError::NotFound { kind: EntityKind::Habit, id: id as i64 }),
            Some(habit) => Ok(habit),
        }
    }

    /// The tasks of one player, in the order of the table.
    pub open spec fn tasks_of(self, player: int) -> Seq<TaskView> {
        self.tasks.filter(|task: TaskView| task.data.player == player)
    }

    /// The habits of one player, in the order of the table.
    pub open spec fn habits_of(self, player: int) -> Seq<HabitView> {
        self.habits.filter(|habit: HabitView| habit.data.player == player)
    }

    /// Creates a player: a new row with no experience on level 1. Fails with
    /// `NotFound` when the catalog has no level 1.
    pub open spec fn create_player(self, name: Seq<char>) -> Result<
        (DatabaseView, PlayerView),
        RouteError,
    > {
        if !has_level(self.levels, 1) {
            Err(RouteError::NotFound { kind: EntityKind::Level, id: 1 })
        } else {
            match self.insert_player(name) {
                Err(e) => Err(e),
                Ok(after) => Ok((after, after.players.last())),
            }
        }
    }

    /// Creates a task: an open task with the owner, name and description of
    /// `data`.
    pub open spec fn create_task(self, data: TaskDataView) -> Result<
        (DatabaseView, TaskView),
        RouteError,
    > {
        match self.insert_task(data) {
            Err(e) => Err(e),
            Ok(after) => Ok((after, after.tasks.last())),
        }
    }

    /// Creates a habit with the given content.
    pub open spec fn create_habit(self, data: HabitDataView) -> Result<
        (DatabaseView, HabitView),
        RouteError,
    > {
        match self.insert_habit(data) {
            Err(e) => Err(e),
            Ok(after) => Ok((after, after.habits.last())),
        }
    }

    /// Grants `delta` to the player of this identifier: levels the player
    /// up from the experience and level that are stored, and stores the
    /// outcome in the player's row. Returns the state after it and the player
    /// as the player then is.
    ///
    /// Fails as [`DatabaseView::player`] does, and as [`gain`] does.
    pub open spec fn add_xp(self, id: int, delta: int) -> Result<
        (DatabaseView, PlayerView),
        RouteError,
    > {
        match self.player(id) {
            Err(e) => Err(e),
            Ok(stored) => match gain(self.levels, stored.data.xp, stored.data.level, delta) {
                Err(e) => Err(e),
                Ok((xp, level)) => {
                    let data = PlayerDataView { xp, level, ..stored.data };
                    Ok(
                        (
                            DatabaseView { players: replace(self.players, id, data), ..self },
                            Row { id, data },
                        ),
                    )
                },
            },
        }
    }

    /// Grants the reward to the owner of a task or habit. Fails with
    /// `Inconsistency` when the owner or the owner's level is missing, and
    /// with `NotFound` when the reward takes the owner past the last level.
    pub open spec fn reward(self, owner: int) -> Result<(DatabaseView, PlayerView), RouteError> {
        match self.player(owner) {
            Err(_) => Err(RouteError::Inconsistency),
            Ok(_) => self.add_xp(owner, COMPLETION_REWARD as int),
        }
    }

    /// Completes the task of this identifier. A task that is completed
    /// already stays as it is, and so does the database: nobody gains
    /// anything. Otherwise the task's row is marked completed and the owner
    /// gains the reward, both or neither.
    ///
    /// Fails with `NotFound` when there is no such task, and otherwise as
    /// [`DatabaseView::reward`] does.
    pub open spec fn complete_task(self, id: int) -> Result<Completed, RouteError> {
        match self.task(id) {
            Err(e) => Err(e),
            Ok(task) => if task.data.completed {
                Ok(Completed { db: self, task, rewarded: None })
            } else {
                match self.reward(task.data.player) {
                    Err(e) => Err(e),
                    Ok((rewarded, owner)) => {
                        let data = TaskDataView { completed: true, ..task.data };
                        Ok(
                            Completed {
                                db: DatabaseView {
                                    tasks: replace(self.tasks, id, data),
                                    ..rewarded
                                },
                                task: Row { id, data },
                                rewarded: Some(owner),
                            },
                        )
                    },
                }
            },
        }
    }

    /// Counts one repetition of the habit of this identifier: the owner
    /// gains the reward, every time. Returns the state after it, the habit,
    /// and the owner as the owner then is.
    ///
    /// Fails with `NotFound` when there is no such habit, and otherwise as
    /// [`DatabaseView::reward`] does.
    pub open spec fn increment_habit(self, id: int) -> Result<
        (DatabaseView, HabitView, PlayerView),
        RouteError,
    > {
        match self.habit(id) {
            Err(e) => Err(e),
            Ok(habit) => match self.reward(habit.data.player) {
                Err(e) => Err(e),
                Ok((rewarded, owner)) => Ok((rewarded, habit, owner)),
            },
        }
    }
}

/// What completing a task comes to.
pub struct Completed {
    /// The database afterwards.
    pub db: DatabaseView,
    /// The task afterwards: completed.
    pub task: TaskView,
    /// The owner as rewarded, where the task was open; nobody, where the task
    /// was completed already.
    pub rewarded: Option<PlayerView>,
}

} // verus!
