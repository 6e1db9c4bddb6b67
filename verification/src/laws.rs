//! What holds of the operations, whatever the database and whatever the
//! arguments.
//!
//! Every database is valid, and a valid database is settled: each player has
//! experience that is not negative and is less than the player's level asks
//! for. The first part of this file shows that each operation leaves a valid
//! database valid. The second part says what completing a task and repeating
//! a habit come to.

use vstd::prelude::*;
use crate::error::{EntityKind, RouteError};
use crate::habit::HabitDataView;
use crate::level::{
    at_rest, gain, lemma_cascade, lemma_cascade_additive, lemma_gain, valid_catalog,
    COMPLETION_REWARD,
};
use crate::model::{Completed, DatabaseView};
use crate::player::PlayerDataView;
use crate::table::{find, holds, index_of, lemma_index_of, lemma_insert, lemma_replace};
use crate::task::{TaskDataView, TaskView};

verus! {

/// Every player of a valid database whose level the catalog has is at rest:
/// the player's experience is not negative and is less than the level asks
/// for.
pub proof fn lemma_players_at_rest(db: DatabaseView, id: int)
    requires
        db.valid(),
        db.player(id) is Ok,
    ensures
        at_rest(db.levels, db.player(id).unwrap().data.xp, db.player(id).unwrap().data.level),
{
    let place = index_of(db.players, id);
    assert(db.players[place].data.valid());
}

/// A database without rows is valid where its catalog is.
pub proof fn lemma_empty_is_valid(levels: Seq<int>)
    ensures
        DatabaseView::empty(levels).valid() <==> valid_catalog(levels),
{
}

/// A new row in the player table leaves a valid database valid.
pub proof fn lemma_insert_player_keeps_valid(db: DatabaseView, name: Seq<char>)
    requires
        db.valid(),
        db.insert_player(name) is Ok,
    ensures
        db.insert_player(name).unwrap().valid(),
{
    lemma_insert(db.players, PlayerDataView::fresh(name));
}

/// A new row in the task table leaves a valid database valid.
pub proof fn lemma_insert_task_keeps_valid(db: DatabaseView, data: TaskDataView)
    requires
        db.valid(),
        db.insert_task(data) is Ok,
    ensures
        db.insert_task(data).unwrap().valid(),
{
    lemma_insert(db.tasks, TaskDataView { completed: false, ..data });
}

/// A new row in the habit table leaves a valid database valid.
pub proof fn lemma_insert_habit_keeps_valid(db: DatabaseView, data: HabitDataView)
    requires
        db.valid(),
        db.insert_habit(data) is Ok,
    ensures
        db.insert_habit(data).unwrap().valid(),
{
    lemma_insert(db.habits, data);
}

/// A player who is created is at rest, is found under the new identifier,
/// and leaves every other player as before.
pub proof fn lemma_create_player_effect(db: DatabaseView, name: Seq<char>)
    requires
        db.valid(),
        db.create_player(name) is Ok,
    ensures
        ({
            let (after, created) = db.create_player(name).unwrap();
            &&& created.data == PlayerDataView::fresh(name)
            &&& at_rest(after.levels, created.data.xp, created.data.level)
            &&& !holds(db.players, created.id)
            &&& find(after.players, created.id) == Some(created)
            &&& forall|other: int|
                other != created.id ==> #[trigger] find(after.players, other) == find(
                    db.players,
                    other,
                )
            &&& after.tasks == db.tasks
            &&& after.habits == db.habits
            &&& after.levels == db.levels
        }),
{
    lemma_insert(db.players, PlayerDataView::fresh(name));
}

/// A task that is created is open, whatever was said of it, and is found
/// under the new identifier with the owner, name and description that were
/// given. Every other task is as before, and so are the players, the habits
/// and the levels.
pub proof fn lemma_create_task_effect(db: DatabaseView, data: TaskDataView)
    requires
        db.valid(),
        db.create_task(data) is Ok,
    ensures
        ({
            let (after, created) = db.create_task(data).unwrap();
            &&& !created.data.completed
            &&& created.data == (TaskDataView { completed: false, ..data })
            &&& holds(db.players, data.player)
            &&& !holds(db.tasks, created.id)
            &&& find(after.tasks, created.id) == Some(created)
            &&& forall|other: int|
                other != created.id ==> #[trigger] find(after.tasks, other) == find(
                    db.tasks,
                    other,
                )
            &&& after.players == db.players
            &&& after.habits == db.habits
            &&& after.levels == db.levels
        }),
{
    lemma_insert(db.tasks, TaskDataView { completed: false, ..data });
}

/// A habit that is created is found under the new identifier with the
/// content that was given. Every other habit is as before, and so are the
/// players, the tasks and the levels.
pub proof fn lemma_create_habit_effect(db: DatabaseView, data: HabitDataView)
    requires
        db.valid(),
        db.create_habit(data) is Ok,
    ensures
        ({
            let (after, created) = db.create_habit(data).unwrap();
            &&& created.data == data
            &&& holds(db.players, data.player)
            &&& !holds(db.habits, created.id)
            &&& find(after.habits, created.id) == Some(created)
            &&& forall|other: int|
                other != created.id ==> #[trigger] find(after.habits, other) == find(
                    db.habits,
                    other,
                )
            &&& after.players == db.players
            &&& after.tasks == db.tasks
            &&& after.levels == db.levels
        }),
{
    lemma_insert(db.habits, data);
}

/// Experience that is granted leaves a valid database valid.
///
/// The player who gained is at rest afterwards, has not lost a level, and has
/// gathered exactly `delta` more than before. What is returned is what the
/// player's row then holds. The player has kept the name. Every other player
/// is as before, and so are the tasks, the habits and the levels.
pub proof fn lemma_add_xp_effect(db: DatabaseView, id: int, delta: int)
    requires
        db.valid(),
        db.add_xp(id, delta) is Ok,
    ensures
        ({
            let (after, granted) = db.add_xp(id, delta).unwrap();
            let before = find(db.players, id).unwrap();
            &&& after.valid()
            &&& holds(db.players, id)
            &&& find(after.players, id) == Some(granted)
            &&& at_rest(after.levels, granted.data.xp, granted.data.level)
            &&& before.data.level <= granted.data.level
            &&& after.earned_by(id) == db.earned_by(id) + delta
            &&& granted.data.name == before.data.name
            &&& forall|other: int|
                other != id ==> #[trigger] find(after.players, other) == find(db.players, other)
            &&& after.tasks == db.tasks
            &&& after.habits == db.habits
            &&& after.levels == db.levels
        }),
{
    let (after, granted) = db.add_xp(id, delta).unwrap();
    let before = find(db.players, id).unwrap();
    lemma_gain(db.levels, before.data.xp, before.data.level, delta);
    lemma_replace(db.players, id, granted.data);
}

/// What completing a task comes to.
///
/// Where the task was open, the task and its owner change together: the
/// task's row is completed, and the owner has gathered exactly the reward
/// more than before and is at rest. Every other task and every other player
/// is as before, and so are the habits and the levels. Where the task was
/// completed already, nothing has changed at all, and nobody is rewarded.
pub proof fn lemma_complete_task_effect(db: DatabaseView, id: int)
    requires
        db.valid(),
        db.complete_task(id) is Ok,
    ensures
        ({
            let before = find(db.tasks, id).unwrap();
            let Completed { db: after, task, rewarded } = db.complete_task(id).unwrap();
            &&& holds(db.tasks, id)
            &&& after.valid()
            &&& task == (TaskView { id, data: TaskDataView { completed: true, ..before.data } })
            &&& find(after.tasks, id) == Some(task)
            &&& before.data.completed ==> after == db && rewarded is None
            &&& !before.data.completed ==> {
                let owner = before.data.player;
                &&& holds(db.players, owner)
                &&& rewarded is Some
                &&& find(after.players, owner) == rewarded
                &&& after.earned_by(owner) == db.earned_by(owner) + COMPLETION_REWARD
                &&& at_rest(after.levels, rewarded.unwrap().data.xp, rewarded.unwrap().data.level)
                &&& forall|other: int|
                    other != owner ==> #[trigger] find(after.players, other) == find(
                        db.players,
                        other,
                    )
            }
            &&& forall|other: int|
                other != id ==> #[trigger] find(after.tasks, other) == find(db.tasks, other)
            &&& after.habits == db.habits
            &&& after.levels == db.levels
        }),
{
    let before = find(db.tasks, id).unwrap();
    lemma_index_of(db.tasks, index_of(db.tasks, id));
    if !before.data.completed {
        lemma_add_xp_effect(db, before.data.player, COMPLETION_REWARD as int);
        lemma_replace(db.tasks, id, TaskDataView { completed: true, ..before.data });
    }
}

/// Completing a task twice is the same as completing it once: the second
/// call returns the same task, rewards nobody, and leaves the database, the
/// owner's experience with it, exactly as the first call left it.
pub proof fn lemma_complete_task_idempotent(db: DatabaseView, id: int)
    requires
        db.valid(),
        db.complete_task(id) is Ok,
    ensures
        ({
            let once = db.complete_task(id).unwrap();
            once.db.complete_task(id) == Ok::<Completed, RouteError>(
                Completed { db: once.db, task: once.task, rewarded: None },
            )
        }),
{
    lemma_complete_task_effect(db, id);
}

/// A task that is completed is never touched again: whichever task is
/// completed after it, its row stays as it is.
pub proof fn lemma_completed_task_is_final(db: DatabaseView, id: int, next: int)
    requires
        db.valid(),
        find(db.tasks, id) is Some,
        find(db.tasks, id).unwrap().data.completed,
        db.complete_task(next) is Ok,
    ensures
        find(db.complete_task(next).unwrap().db.tasks, id) == find(db.tasks, id),
{
    lemma_complete_task_effect(db, next);
}

/// Completing a task that does not exist fails with `NotFound`. As every
/// failure, it leaves nothing changed.
pub proof fn lemma_complete_task_unknown(db: DatabaseView, id: int)
    requires
        !holds(db.tasks, id),
    ensures
        db.complete_task(id) == Err::<Completed, RouteError>(
            RouteError::NotFound { kind: EntityKind::Task, id: id as i64 },
        ),
{
}

/// What counting a repetition of a habit comes to: the owner has gathered
/// exactly the reward more than before and is at rest. Every other player is
/// as before, and so are the tasks, the habits and the levels.
pub proof fn lemma_increment_habit_effect(db: DatabaseView, id: int)
    requires
        db.valid(),
        db.increment_habit(id) is Ok,
    ensures
        ({
            let (after, habit, rewarded) = db.increment_habit(id).unwrap();
            let owner = habit.data.player;
            &&& find(db.habits, id) == Some(habit)
            &&& after.valid()
            &&& holds(db.players, owner)
            &&& find(after.players, owner) == Some(rewarded)
            &&& after.earned_by(owner) == db.earned_by(owner) + COMPLETION_REWARD
            &&& at_rest(after.levels, rewarded.data.xp, rewarded.data.level)
            &&& forall|other: int|
                other != owner ==> #[trigger] find(after.players, other) == find(
                    db.players,
                    other,
                )
            &&& after.tasks == db.tasks
            &&& after.habits == db.habits
            &&& after.levels == db.levels
        }),
{
    let habit = find(db.habits, id).unwrap();
    lemma_add_xp_effect(db, habit.data.player, COMPLETION_REWARD as int);
}

/// Counting a repetition of a habit twice grants the reward twice: after
/// the two calls the owner has gathered twice the reward more than before,
/// and stands where one gain of twice the reward would have taken the owner.
/// Neither call has left the database as it found it.
pub proof fn lemma_increment_habit_twice(db: DatabaseView, id: int)
    requires
        db.valid(),
        db.increment_habit(id) is Ok,
        db.increment_habit(id).unwrap().0.increment_habit(id) is Ok,
    ensures
        ({
            let (once, habit, _) = db.increment_habit(id).unwrap();
            let (twice, same, _) = once.increment_habit(id).unwrap();
            let owner = habit.data.player;
            let start = find(db.players, owner).unwrap().data;
            let end = find(twice.players, owner).unwrap().data;
            &&& same == habit
            &&& once.earned_by(owner) == db.earned_by(owner) + COMPLETION_REWARD
            &&& twice.earned_by(owner) == db.earned_by(owner) + 2 * COMPLETION_REWARD
            &&& gain(db.levels, start.xp, start.level, 2 * COMPLETION_REWARD) == Ok::<
                (int, int),
                RouteError,
            >((end.xp, end.level))
            &&& once != db
            &&& twice != once
        }),
{
    let (once, habit, _) = db.increment_habit(id).unwrap();
    let owner = habit.data.player;
    lemma_increment_habit_effect(db, id);
    lemma_increment_habit_effect(once, id);
    let start = find(db.players, owner).unwrap().data;
    let middle = find(once.players, owner).unwrap().data;
    lemma_cascade(db.levels, start.xp + COMPLETION_REWARD, start.level);
    lemma_cascade_additive(
        db.levels,
        start.xp + COMPLETION_REWARD,
        start.level,
        COMPLETION_REWARD as int,
    );
    lemma_cascade(db.levels, middle.xp + COMPLETION_REWARD, middle.level);
}

} // verus!
