//! The database: the level catalog and the tables of players, tasks and
//! habits, held in memory.
//!
//! This is the storage layer. It hands out identifiers, keeps the rows, and
//! enforces the constraints of each table. What is granted to whom is decided
//! elsewhere.

use vstd::prelude::*;
use crate::error::RouteError;
use crate::habit::{Habit, HabitData, HabitView};
use crate::ids::{HabitId, LevelId, PlayerId, TaskId};
use crate::laws::{
    lemma_insert_habit_keeps_valid, lemma_insert_player_keeps_valid, lemma_insert_task_keeps_valid,
};
use crate::level::{at_rest, has_level, Level, LevelCatalog};
use crate::model::DatabaseView;
use crate::player::{Player, PlayerData, PlayerDataView};
use crate::table::{find, holds, index_of, next_id, rows_of, Row, Table};
use crate::task::{Task, TaskData, TaskDataView, TaskView};

verus! {

/// Whether every player meets the constraints of the player table, and is
/// at rest if the catalog has the player's level.
fn players_valid(players: &Vec<Player>, levels: &LevelCatalog) -> (yes: bool)
    requires
        levels.wf(),
    ensures
        yes == (forall|i: int|
            0 <= i < players@.len() ==> {
                let data = (#[trigger] rows_of(players@)[i]).data;
                data.valid() && (has_level(levels@, data.level) ==> data.xp < levels@[data.level
                    - 1])
            }),
{
    let mut i: usize = 0;
    while i < players.len()
        invariant
            i <= players.len(),
            levels.wf(),
            forall|k: int|
                0 <= k < i ==> {
                    let data = (#[trigger] rows_of(players@)[k]).data;
                    data.valid() && (has_level(levels@, data.level) ==> data.xp < levels@[data.level
                        - 1])
                },
        decreases players.len() - i,
    {
        let data = &players[i].data;
        assert(data@ == rows_of(players@)[i as int].data);
        if data.xp < 0 || data.level_id.0 < 1 {
            return false;
        }
        match levels.xp_requirement(data.level_id) {
            Ok(needed) => {
                if data.xp >= needed {
                    return false;
                }
            },
            Err(_) => {},
        }
        i += 1;
    }
    true
}

/// What a list of levels asks for, where the levels are numbered from 1
/// without gaps.
fn requirements_of(levels: &Vec<Level>) -> (requirements: Option<Vec<i64>>)
    ensures
        requirements is Some <==> Level::numbered(levels@),
        requirements is Some ==> requirements.unwrap()@.map_values(|xp: i64| xp as int)
            == Level::requirements(levels@),
{
    let mut requirements: Vec<i64> = Vec::new();
    let mut i: usize = 0;
    while i < levels.len()
        invariant
            i <= levels.len(),
            requirements@.len() == i,
            forall|k: int| 0 <= k < i ==> (#[trigger] levels@[k]).id.0 == k + 1,
            forall|k: int| 0 <= k < i ==> #[trigger] requirements@[k] == levels@[k].xp_requirement,
        decreases levels.len() - i,
    {
        if i as u64 >= 0x7fff_ffff_ffff_ffff || levels[i].id.0 != (i + 1) as i64 {
            assert(levels@[i as int].id.0 != i + 1);
            return None;
        }
        requirements.push(levels[i].xp_requirement);
        i += 1;
    }
    assert(requirements@.map_values(|xp: i64| xp as int) =~= Level::requirements(levels@));
    Some(requirements)
}

/// A database in memory.
pub struct Database {
    levels: LevelCatalog,
    players: Table<Player>,
    tasks: Table<Task>,
    habits: Table<Habit>,
}

impl View for Database {
    type V = DatabaseView;

    closed spec fn view(&self) -> DatabaseView {
        DatabaseView {
            levels: self.levels@,
            players: self.players@,
            tasks: self.tasks@,
            habits: self.habits@,
        }
    }
}

impl Database {
    /// The invariant of the type.
    pub open spec fn wf(&self) -> bool {
        self@.valid()
    }

    /// A database without rows, whose levels ask for the given amounts of
    /// experience: the first entry is level 1. Fails with `StorageFailure`
    /// when an amount is not positive.
    pub fn create_in_memory(xp_requirements: Vec<i64>) -> (database: Result<Database, RouteError>)
        ensures
            match database {
                Ok(db) => db.wf() && db@ == DatabaseView::empty(
                    xp_requirements@.map_values(|xp: i64| xp as int),
                ),
                Err(e) => e == RouteError::StorageFailure,
            },
            database is Ok <==> DatabaseView::empty(
                xp_requirements@.map_values(|xp: i64| xp as int),
            ).valid(),
    {
        match LevelCatalog::seed(xp_requirements) {
            Err(e) => Err(e),
            Ok(levels) => Ok(
                Database {
                    levels,
                    players: Table::new(),
                    tasks: Table::new(),
                    habits: Table::new(),
                },
            ),
        }
    }

    /// The database that holds the given rows: what was stored of an earlier
    /// database. Fails with `StorageFailure` when the rows are not those of a
    /// valid database: levels that are not numbered from 1 without gaps or
    /// ask for nothing, identifiers that are not positive or do not grow from
    /// row to row, a player with negative experience, with a level below 1,
    /// or with as much experience as the player's level asks for.
    ///
    /// That the owner of a task or habit is among the players, or a
    /// player's level in the catalog, is not asked for: the operations find
    /// out when they need the one or the other.
    pub fn open(
        levels: Vec<Level>,
        players: Vec<Player>,
        tasks: Vec<Task>,
        habits: Vec<Habit>,
    ) -> (database: Result<Database, RouteError>)
        ensures
            match database {
                Ok(db) => db.wf() && db@ == (DatabaseView {
                    levels: Level::requirements(levels@),
                    players: rows_of(players@),
                    tasks: rows_of(tasks@),
                    habits: rows_of(habits@),
                }),
                Err(e) => e == RouteError::StorageFailure,
            },
            database is Ok <==> Level::numbered(levels@) && (DatabaseView {
                levels: Level::requirements(levels@),
                players: rows_of(players@),
                tasks: rows_of(tasks@),
                habits: rows_of(habits@),
            }).valid(),
    {
        let requirements = match requirements_of(&levels) {
            None => {
                return Err(RouteError::StorageFailure);
            },
            Some(requirements) => requirements,
        };
        let levels = match LevelCatalog::seed(requirements) {
            Err(e) => {
                return Err(e);
            },
            Ok(levels) => levels,
        };
        if !players_valid(&players, &levels) {
            return Err(RouteError::StorageFailure);
        }
        let players = match Table::load(players) {
            None => {
                return Err(RouteError::StorageFailure);
            },
            Some(players) => players,
        };
        let tasks = match Table::load(tasks) {
            None => {
                return Err(RouteError::StorageFailure);
            },
            Some(tasks) => tasks,
        };
        let habits = match Table::load(habits) {
            None => {
                return Err(RouteError::StorageFailure);
            },
            Some(habits) => habits,
        };
        Ok(Database { levels, players, tasks, habits })
    }

    /// The level catalog.
    pub fn levels(&self) -> (levels: &LevelCatalog)
        requires
            self.wf(),
        ensures
            levels.wf(),
            levels@ == self@.levels,
    {
        &self.levels
    }

    /// The place of a player's row in the table.
    pub(crate) fn find_player(&self, id: PlayerId) -> (place: Option<usize>)
        requires
            self.wf(),
        ensures
            place is Some <==> holds(self@.players, id.0 as int),
            place is Some ==> place.unwrap() == index_of(self@.players, id.0 as int),
            place is Some ==> place.unwrap() < self@.players.len(),
    {
        self.players.find(id.0)
    }

    /// The row at a place of the player table.
    pub(crate) fn player_at(&self, place: usize) -> (player: &Player)
        requires
            place < self@.players.len(),
        ensures
            player@ == self@.players[place as int],
    {
        self.players.at(place)
    }

    /// The player of this identifier, if there is one.
    pub fn get_player(&self, player_id: PlayerId) -> (player: Option<Player>)
        requires
            self.wf(),
        ensures
            match find(self@.players, player_id.0 as int) {
                Some(row) => player is Some && player.unwrap()@ == row,
                None => player is None,
            },
    {
        self.players.get(player_id.0)
    }

    /// All players, in the order in which they were created.
    pub fn get_players(&self) -> (players: Vec<Player>)
        ensures
            rows_of(players@) == self@.players,
    {
        self.players.all()
    }

    /// Adds a player of that name who has just begun, and returns the new
    /// player's identifier. Fails with `StorageFailure` when no identifier is
    /// left.
    pub fn create_player(&mut self, player_name: &str) -> (id: Result<PlayerId, RouteError>)
        requires
            old(self).wf(),
        ensures
            final(self).wf(),
            match old(self)@.insert_player(player_name@) {
                Ok(after) => id == Ok::<PlayerId, RouteError>(
                    PlayerId(next_id(old(self)@.players) as i64),
                ) && final(self)@ == after,
                Err(e) => id == Err::<PlayerId, RouteError>(e) && final(self)@ == old(self)@,
            },
    {
        let id = match self.players.next_id() {
            None => {
                return Err(RouteError::StorageFailure);
            },
            Some(id) => PlayerId(id),
        };
        proof {
            lemma_insert_player_keeps_valid(self@, player_name@);
        }
        self.players.push(Player { id, data: PlayerData::new(player_name) });
        Ok(id)
    }

    /// Stores new experience and a new level, at which the player is at
    /// rest, in the row at a place of the player table.
    pub(crate) fn store_progress(&mut self, place: usize, xp: i64, level_id: LevelId)
        requires
            old(self).wf(),
            place < old(self)@.players.len(),
            at_rest(old(self)@.levels, xp as int, level_id.0 as int),
        ensures
            final(self).wf(),
            final(self)@ == (DatabaseView {
                players: old(self)@.players.update(
                    place as int,
                    Row {
                        id: old(self)@.players[place as int].id,
                        data: PlayerDataView {
                            xp: xp as int,
                            level: level_id.0 as int,
                            ..old(self)@.players[place as int].data
                        },
                    },
                ),
                ..old(self)@
            }),
    {
        let mut player = self.players.at(place).clone();
        player.data.xp = xp;
        player.data.level_id = level_id;
        self.players.set(place, player);
    }

    /// The place of a task's row in the table.
    pub(crate) fn find_task(&self, id: TaskId) -> (place: Option<usize>)
        requires
            self.wf(),
        ensures
            place is Some <==> holds(self@.tasks, id.0 as int),
            place is Some ==> place.unwrap() == index_of(self@.tasks, id.0 as int),
            place is Some ==> place.unwrap() < self@.tasks.len(),
    {
        self.tasks.find(id.0)
    }

    /// The row at a place of the task table.
    pub(crate) fn task_at(&self, place: usize) -> (task: &Task)
        requires
            place < self@.tasks.len(),
        ensures
            task@ == self@.tasks[place as int],
    {
        self.tasks.at(place)
    }

    /// The task of this identifier, if there is one.
    pub fn get_task(&self, task_id: TaskId) -> (task: Option<Task>)
        requires
            self.wf(),
        ensures
            match find(self@.tasks, task_id.0 as int) {
                Some(row) => task is Some && task.unwrap()@ == row,
                None => task is None,
            },
    {
        self.tasks.get(task_id.0)
    }

    /// All tasks, in the order in which they were created.
    pub fn get_tasks(&self) -> (tasks: Vec<Task>)
        ensures
            rows_of(tasks@) == self@.tasks,
    {
        self.tasks.all()
    }

    /// The tasks of one player, in the order in which they were created.
    pub fn get_player_tasks(&self, player_id: PlayerId) -> (tasks: Vec<Task>)
        ensures
            rows_of(tasks@) == self@.tasks_of(player_id.0 as int),
    {
        let ghost owned = |task: TaskView| task.data.player == player_id.0 as int;
        let mut tasks: Vec<Task> = Vec::new();
        let mut i: usize = 0;
        proof {
            reveal(Seq::filter);
            assert(self@.tasks.take(0) =~= Seq::empty());
        }
        while i < self.tasks.len()
            invariant
                i <= self@.tasks.len(),
                owned == |task: TaskView| task.data.player == player_id.0 as int,
                rows_of(tasks@) == self@.tasks.take(i as int).filter(owned),
            decreases self@.tasks.len() - i,
        {
            proof {
                reveal(Seq::filter);
                assert(self@.tasks.take(i + 1).drop_last() =~= self@.tasks.take(i as int));
                assert(self@.tasks.take(i + 1).last() == self@.tasks[i as int]);
            }
            let ghost before = tasks@;
            let task = self.tasks.at(i);
            if task.data.player.0 == player_id.0 {
                tasks.push(task.clone());
                assert(rows_of(tasks@) =~= rows_of(before).push(self@.tasks[i as int]));
            }
            i += 1;
        }
        assert(self@.tasks.take(i as int) =~= self@.tasks);
        tasks
    }

    /// Adds an open task with the owner, name and description of `task`, and
    /// returns its identifier. The task is stored as open whatever `task`
    /// says of it. Fails with `StorageFailure` when the owner is not in the
    /// player table, or no identifier is left.
    pub fn create_task(&mut self, task: TaskData) -> (id: Result<TaskId, RouteError>)
        requires
            old(self).wf(),
        ensures
            final(self).wf(),
            match old(self)@.insert_task(task@) {
                Ok(after) => id == Ok::<TaskId, RouteError>(
                    TaskId(next_id(old(self)@.tasks) as i64),
                ) && final(self)@ == after,
                Err(e) => id == Err::<TaskId, RouteError>(e) && final(self)@ == old(self)@,
            },
    {
        if self.players.find(task.player.0).is_none() {
            return Err(RouteError::StorageFailure);
        }
        let id = match self.tasks.next_id() {
            None => {
                return Err(RouteError::StorageFailure);
            },
            Some(id) => TaskId(id),
        };
        proof {
            lemma_insert_task_keeps_valid(self@, task@);
        }
        let mut data = task;
        data.completed = false;
        self.tasks.push(Task { id, data });
        Ok(id)
    }

    /// Marks the row at a place of the task table as completed.
    pub(crate) fn mark_completed(&mut self, place: usize)
        requires
            old(self).wf(),
            place < old(self)@.tasks.len(),
        ensures
            final(self).wf(),
            final(self)@ == (DatabaseView {
                tasks: old(self)@.tasks.update(
                    place as int,
                    Row {
                        id: old(self)@.tasks[place as int].id,
                        data: TaskDataView {
                            completed: true,
                            ..old(self)@.tasks[place as int].data
                        },
                    },
                ),
                ..old(self)@
            }),
    {
        let mut task = self.tasks.at(place).clone();
        task.data.completed = true;
        self.tasks.set(place, task);
    }

    /// The place of a habit's row in the table.
    pub(crate) fn find_habit(&self, id: HabitId) -> (place: Option<usize>)
        requires
            self.wf(),
        ensures
            place is Some <==> holds(self@.habits, id.0 as int),
            place is Some ==> place.unwrap() == index_of(self@.habits, id.0 as int),
            place is Some ==> place.unwrap() < self@.habits.len(),
    {
        self.habits.find(id.0)
    }

    /// The row at a place of the habit table.
    pub(crate) fn habit_at(&self, place: usize) -> (habit: &Habit)
        requires
            place < self@.habits.len(),
        ensures
            habit@ == self@.habits[place as int],
    {
        self.habits.at(place)
    }

    /// The habit of this identifier, if there is one.
    pub fn get_habit(&self, habit_id: HabitId) -> (habit: Option<Habit>)
        requires
            self.wf(),
        ensures
            match find(self@.habits, habit_id.0 as int) {
                Some(row) => habit is Some && habit.unwrap()@ == row,
                None => habit is None,
            },
    {
        self.habits.get(habit_id.0)
    }

    /// All habits, in the order in which they were created.
    pub fn get_habits(&self) -> (habits: Vec<Habit>)
        ensures
            rows_of(habits@) == self@.habits,
    {
        self.habits.all()
    }

    /// The habits of one player, in the order in which they were created.
    pub fn get_player_habits(&self, player_id: PlayerId) -> (habits: Vec<Habit>)
        ensures
            rows_of(habits@) == self@.habits_of(player_id.0 as int),
    {
        let ghost owned = |habit: HabitView| habit.data.player == player_id.0 as int;
        let mut habits: Vec<Habit> = Vec::new();
        let mut i: usize = 0;
        proof {
            reveal(Seq::filter);
            assert(self@.habits.take(0) =~= Seq::empty());
        }
        while i < self.habits.len()
            invariant
                i <= self@.habits.len(),
                owned == |habit: HabitView| habit.data.player == player_id.0 as int,
                rows_of(habits@) == self@.habits.take(i as int).filter(owned),
            decreases self@.habits.len() - i,
        {
            proof {
                reveal(Seq::filter);
                assert(self@.habits.take(i + 1).drop_last() =~= self@.habits.take(i as int));
                assert(self@.habits.take(i + 1).last() == self@.habits[i as int]);
            }
            let ghost before = habits@;
            let habit = self.habits.at(i);
            if habit.data.player_id.0 == player_id.0 {
                habits.push(habit.clone());
                assert(rows_of(habits@) =~= rows_of(before).push(self@.habits[i as int]));
            }
            i += 1;
        }
        assert(self@.habits.take(i as int) =~= self@.habits);
        habits
    }

    /// Adds a habit with the given content, and returns its identifier. Fails
    /// with `StorageFailure` when the owner is not in the player table, or no
    /// identifier is left.
    pub fn create_habit(&mut self, habit: HabitData) -> (id: Result<HabitId, RouteError>)
        requires
            old(self).wf(),
        ensures
            final(self).wf(),
            match old(self)@.insert_habit(habit@) {
                Ok(after) => id == Ok::<HabitId, RouteError>(
                    HabitId(next_id(old(self)@.habits) as i64),
                ) && final(self)@ == after,
                Err(e) => id == Err::<HabitId, RouteError>(e) && final(self)@ == old(self)@,
            },
    {
        if self.players.find(habit.player_id.0).is_none() {
            return Err(RouteError::StorageFailure);
        }
        let id = match self.habits.next_id() {
            None => {
                return Err(RouteError::StorageFailure);
            },
            Some(id) => HabitId(id),
        };
        proof {
            lemma_insert_habit_keeps_valid(self@, habit@);
        }
        self.habits.push(Habit { id, data: habit });
        Ok(id)
    }
}

} // verus!
