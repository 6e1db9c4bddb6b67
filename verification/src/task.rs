//! Tasks: things to do once.

use vstd::prelude::*;
use crate::database::Database;
use crate::error::{EntityKind, RouteError};
use crate::ids::{PlayerId, TaskId};
use crate::level::COMPLETION_REWARD;
use crate::player::{Player, PlayerView};
use crate::table::{rows_of, Record, Row};

verus! {

/// What a task holds besides its identifier.
#[derive(Debug, PartialEq, Eq)]
pub struct TaskData {
    /// The player who owns the task.
    pub player: PlayerId,
    pub name: String,
    pub description: String,
    /// Whether the task has been completed.
    pub completed: bool,
}

/// A task of the database. A task starts out open and is completed at most
/// once; a completed task stays completed.
#[derive(Debug, PartialEq, Eq)]
pub struct Task {
    pub id: TaskId,
    pub data: TaskData,
}

/// How completing a task ended. Both ways are a success.
#[derive(Debug, PartialEq, Eq)]
pub enum Completion {
    /// The task was open. It is completed now, and its owner has gained the
    /// reward: `player` is the owner as the owner now is.
    Updated { player: Player },
    /// The task was completed already. Nothing has changed, and nobody has
    /// gained anything.
    AlreadyComplete,
}

impl Completion {
    /// The player who was rewarded, if any was.
    pub open spec fn rewarded(self) -> Option<PlayerView> {
        match self {
            Completion::Updated { player } => Some(player@),
            Completion::AlreadyComplete => None,
        }
    }
}

/// The mathematical content of a [`TaskData`].
#[verifier::ext_equal]
pub struct TaskDataView {
    pub player: int,
    pub name: Seq<char>,
    pub description: Seq<char>,
    pub completed: bool,
}

/// The mathematical content of a [`Task`]: a row of the task table.
pub type TaskView = Row<TaskDataView>;

impl View for TaskData {
    type V = TaskDataView;

    open spec fn view(&self) -> TaskDataView {
        TaskDataView {
            player: self.player.0 as int,
            name: self.name@,
            description: self.description@,
            completed: self.completed,
        }
    }
}

impl View for Task {
    type V = TaskView;

    open spec fn view(&self) -> TaskView {
        Row { id: self.id.0 as int, data: self.data@ }
    }
}

impl Clone for TaskData {
    fn clone(&self) -> (copy: Self)
        ensures
            copy == *self,
    {
        TaskData {
            player: self.player,
            name: self.name.clone(),
            description: self.description.clone(),
            completed: self.completed,
        }
    }
}

impl Clone for Task {
    fn clone(&self) -> (copy: Self)
        ensures
            copy == *self,
    {
        Task { id: self.id, data: self.data.clone() }
    }
}

impl Record for Task {
    type Content = TaskDataView;

    open spec fn row(&self) -> TaskView {
        self@
    }

    fn key(&self) -> (id: i64) {
        self.id.0
    }

    fn duplicate(&self) -> (copy: Self) {
        self.clone()
    }
}

impl TaskData {
    /// An open task for `player`.
    pub fn new(player: PlayerId, name: &str, description: &str) -> (data: TaskData)
        ensures
            data@ == (TaskDataView {
                player: player.0 as int,
                name: name@,
                description: description@,
                completed: false,
            }),
    {
        TaskData {
            player,
            name: name.to_owned(),
            description: description.to_owned(),
            completed: false,
        }
    }

    /// The player who owns the task.
    pub fn player(&self) -> (player: PlayerId)
        ensures
            player == self.player,
    {
        self.player
    }

    /// The task's name.
    pub fn name(&self) -> (name: &str)
        ensures
            name@ == self@.name,
    {
        self.name.as_str()
    }

    /// The task's description.
    pub fn description(&self) -> (description: &str)
        ensures
            description@ == self@.description,
    {
        self.description.as_str()
    }

    /// Whether the task has been completed.
    pub fn completed(&self) -> (completed: bool)
        ensures
            completed == self.completed,
    {
        self.completed
    }
}

impl Task {
    /// The task's identifier.
    pub fn id(&self) -> (id: TaskId)
        ensures
            id == self.id,
    {
        self.id
    }

    /// The player who owns the task.
    pub fn player_id(&self) -> (player: PlayerId)
        ensures
            player == self.data.player,
    {
        self.data.player
    }

    /// Creates a task in the database: an open task with the owner, name and
    /// description of `task_data`. A task begins open whatever `task_data`
    /// says of it. Fails with `StorageFailure` when the owner is not in the
    /// player table, or no identifier is left.
    pub fn create(db: &mut Database, task_data: TaskData) -> (task: Result<Task, RouteError>)
        requires
            old(db).wf(),
        ensures
            final(db).wf(),
            match old(db)@.create_task(task_data@) {
                Ok((after, created)) => task is Ok && task.unwrap()@ == created && final(db)@
                    == after,
                Err(e) => task == Err::<Task, RouteError>(e) && final(db)@ == old(db)@,
            },
            task is Ok ==> !task.unwrap().data.completed,
    {
        let mut data = task_data.clone();
        data.completed = false;
        match db.create_task(task_data) {
            Err(e) => Err(e),
            Ok(id) => Ok(Task { id, data }),
        }
    }

    /// Loads the task of this identifier. Fails with `NotFound` when there is
    /// none.
    pub fn from_id(db: &Database, id: TaskId) -> (task: Result<Task, RouteError>)
        requires
            db.wf(),
        ensures
            match db@.task(id.0 as int) {
                Ok(stored) => task is Ok && task.unwrap()@ == stored,
                Err(e) => task == Err::<Task, RouteError>(e),
            },
    {
        match db.get_task(id) {
            None => Err(RouteError::NotFound { kind: EntityKind::Task, id: id.0 }),
            Some(task) => Ok(task),
        }
    }

    /// Loads all tasks, in the order in which they were created.
    pub fn all_tasks(db: &Database) -> (tasks: Vec<Task>)
        ensures
            rows_of(tasks@) == db@.tasks,
    {
        db.get_tasks()
    }

    /// Loads the tasks of one player, in the order in which they were
    /// created.
    pub fn player_tasks(db: &Database, player_id: PlayerId) -> (tasks: Vec<Task>)
        ensures
            rows_of(tasks@) == db@.tasks_of(player_id.0 as int),
    {
        db.get_player_tasks(player_id)
    }

    /// Completes the task. The task is read from the database anew, by the
    /// identifier that `self` holds. If it is completed there already,
    /// nothing happens and nobody gains anything. Otherwise the task's row is
    /// marked as completed and the owner gains the reward and is leveled up:
    /// both take place, or neither does. Either way `self` becomes what the
    /// row then holds.
    ///
    /// Fails with `NotFound` when the database has no row for the task, with
    /// `Inconsistency` when the owner or the owner's level is missing, and
    /// with `NotFound` when the reward takes the owner past the last level.
    /// When it fails, neither the database nor `self` has changed.
    pub fn complete_task(&mut self, db: &mut Database) -> (done: Result<Completion, RouteError>)
        requires
            old(db).wf(),
        ensures
            final(db).wf(),
            match old(db)@.complete_task(old(self).id.0 as int) {
                Ok(completed) => done is Ok && done.unwrap().rewarded() == completed.rewarded
                    && final(db)@ == completed.db && final(self)@ == completed.task,
                Err(e) => done == Err::<Completion, RouteError>(e) && final(db)@ == old(db)@
                    && *final(self) == *old(self),
            },
    {
        let place = match db.find_task(self.id) {
            None => {
                return Err(RouteError::NotFound { kind: EntityKind::Task, id: self.id.0 });
            },
            Some(place) => place,
        };
        let stored = db.task_at(place);
        if stored.data.completed {
            *self = stored.clone();
            return Ok(Completion::AlreadyComplete);
        }
        let mut owner = match Player::from_id(db, stored.data.player) {
            Err(_) => {
                return Err(RouteError::Inconsistency);
            },
            Ok(owner) => owner,
        };
        match owner.add_xp(db, COMPLETION_REWARD) {
            Err(e) => Err(e),
            Ok(()) => {
                db.mark_completed(place);
                *self = db.task_at(place).clone();
                Ok(Completion::Updated { player: owner })
            },
        }
    }
}

} // verus!
