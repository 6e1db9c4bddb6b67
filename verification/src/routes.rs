//! The operations that take an identifier from a request: each loads the
//! entity, acts on it and hands back what it has become.

use vstd::prelude::*;
use crate::database::Database;
use crate::error::RouteError;
use crate::habit::Habit;
use crate::ids::{HabitId, PlayerId, TaskId};
use crate::player::Player;
use crate::table::rows_of;
use crate::task::{Completion, Task};

verus! {

/// Grants experience to the player of this identifier, and returns the
/// player as it then is. Fails as [`Player::from_id`] and [`Player::add_xp`]
/// do, and then leaves the database as it was.
pub fn add_xp(db: &mut Database, player_id: PlayerId, xp_delta: i64) -> (player: Result<
    Player,
    RouteError,
>)
    requires
        old(db).wf(),
    ensures
        final(db).wf(),
        match old(db)@.add_xp(player_id.0 as int, xp_delta as int) {
            Ok((after, granted)) => player is Ok && player.unwrap()@ == granted && final(db)@
                == after,
            Err(e) => player == Err::<Player, RouteError>(e) && final(db)@ == old(db)@,
        },
{
    let mut player = match Player::from_id(db, player_id) {
        Err(e) => {
            return Err(e);
        },
        Ok(player) => player,
    };
    match player.add_xp(db, xp_delta) {
        Err(e) => Err(e),
        Ok(()) => Ok(player),
    }
}

/// The tasks of one player, or all tasks where no player is given.
pub fn get_tasks(db: &Database, player: Option<PlayerId>) -> (tasks: Vec<Task>)
    ensures
        rows_of(tasks@) == match player {
            Some(player_id) => db@.tasks_of(player_id.0 as int),
            None => db@.tasks,
        },
{
    match player {
        Some(player_id) => Task::player_tasks(db, player_id),
        None => Task::all_tasks(db),
    }
}

/// Completes the task of this identifier. Returns the task as it then is,
/// and how it went: whether the task was open, and its owner has been
/// rewarded, or was completed already, and nothing has changed.
///
/// Fails with `NotFound` when there is no such task, and otherwise as
/// [`Task::complete_task`] does. When it fails, the database has not changed.
pub fn complete_task(db: &mut Database, task_id: TaskId) -> (done: Result<
    (Task, Completion),
    RouteError,
>)
    requires
        old(db).wf(),
    ensures
        final(db).wf(),
        match old(db)@.complete_task(task_id.0 as int) {
            Ok(completed) => done is Ok && done.unwrap().0@ == completed.task
                && done.unwrap().1.rewarded() == completed.rewarded && final(db)@ == completed.db,
            Err(e) => done == Err::<(Task, Completion), RouteError>(e) && final(db)@ == old(db)@,
        },
{
    let mut task = match Task::from_id(db, task_id) {
        Err(e) => {
            return Err(e);
        },
        Ok(task) => task,
    };
    match task.complete_task(db) {
        Err(e) => Err(e),
        Ok(completion) => Ok((task, completion)),
    }
}

/// The habits of one player, or all habits where no player is given.
pub fn get_habits(db: &Database, player: Option<PlayerId>) -> (habits: Vec<Habit>)
    ensures
        rows_of(habits@) == match player {
            Some(player_id) => db@.habits_of(player_id.0 as int),
            None => db@.habits,
        },
{
    match player {
        Some(player_id) => Habit::player_habits(db, player_id),
        None => Habit::all_habits(db),
    }
}

/// Counts one repetition of the habit of this identifier. Returns the habit
/// and its owner as the owner then is. Every call that succeeds grants the
/// owner the reward.
///
/// Fails with `NotFound` when there is no such habit, and otherwise as
/// [`Habit::increment`] does. When it fails, the database has not changed.
pub fn increment_habit(db: &mut Database, habit_id: HabitId) -> (done: Result<
    (Habit, Player),
    RouteError,
>)
    requires
        old(db).wf(),
    ensures
        final(db).wf(),
        match old(db)@.increment_habit(habit_id.0 as int) {
            Ok((after, habit, owner)) => done is Ok && done.unwrap().0@ == habit
                && done.unwrap().1@ == owner && final(db)@ == after,
            Err(e) => done == Err::<(Habit, Player), RouteError>(e) && final(db)@ == old(db)@,
        },
{
    let mut habit = match Habit::from_id(db, habit_id) {
        Err(e) => {
            return Err(e);
        },
        Ok(habit) => habit,
    };
    match habit.increment(db) {
        Err(e) => Err(e),
        Ok(owner) => Ok((habit, owner)),
    }
}

} // verus!
