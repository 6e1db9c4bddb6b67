//! Habits: things to do again and again.

use vstd::prelude::*;
use crate::database::Database;
use crate::error::{EntityKind, RouteError};
use crate::ids::{HabitId, PlayerId};
use crate::level::COMPLETION_REWARD;
use crate::player::Player;
use crate::table::{rows_of, Record, Row};

verus! {

/// What a habit holds besides its identifier.
#[derive(Debug, PartialEq, Eq)]
pub struct HabitData {
    /// The player who owns the habit.
    pub player_id: PlayerId,
    pub name: String,
    pub description: String,
}

/// A habit of the database. A habit has no state of its own: every
/// repetition is an event by itself.
#[derive(Debug, PartialEq, Eq)]
pub struct Habit {
    pub id: HabitId,
    pub data: HabitData,
}

/// The mathematical content of a [`HabitData`].
#[verifier::ext_equal]
pub struct HabitDataView {
    pub player: int,
    pub name: Seq<char>,
    pub description: Seq<char>,
}

/// The mathematical content of a [`Habit`]: a row of the habit table.
pub type HabitView = Row<HabitDataView>;

impl View for HabitData {
    type V = HabitDataView;

    open spec fn view(&self) -> HabitDataView {
        HabitDataView {
            player: self.player_id.0 as int,
            name: self.name@,
            description: self.description@,
        }
    }
}

impl View for Habit {
    type V = HabitView;

    open spec fn view(&self) -> HabitView {
        Row { id: self.id.0 as int, data: self.data@ }
    }
}

impl Clone for HabitData {
    fn clone(&self) -> (copy: Self)
        ensures
            copy == *self,
    {
        HabitData {
            player_id: self.player_id,
            name: self.name.clone(),
            description: self.description.clone(),
        }
    }
}

impl Clone for Habit {
    fn clone(&self) -> (copy: Self)
        ensures
            copy == *self,
    {
        Habit { id: self.id, data: self.data.clone() }
    }
}

impl Record for Habit {
    type Content = HabitDataView;

    open spec fn row(&self) -> HabitView {
        self@
    }

    fn key(&self) -> (id: i64) {
        self.id.0
    }

    fn duplicate(&self) -> (copy: Self) {
        self.clone()
    }
}

impl HabitData {
    /// A habit for `player_id`.
    pub fn new(player_id: PlayerId, name: &str, description: &str) -> (data: HabitData)
        ensures
            data@ == (HabitDataView {
                player: player_id.0 as int,
                name: name@,
                description: description@,
            }),
    {
        HabitData { player_id, name: name.to_owned(), description: description.to_owned() }
    }
}

impl Habit {
    /// The habit's identifier.
    pub fn id(&self) -> (id: HabitId)
        ensures
            id == self.id,
    {
        self.id
    }

    /// The player who owns the habit.
    pub fn player(&self) -> (player: PlayerId)
        ensures
            player == self.data.player_id,
    {
        self.data.player_id
    }

    /// The habit's name.
    pub fn name(&self) -> (name: &str)
        ensures
            name@ == self@.data.name,
    {
        self.data.name.as_str()
    }

    /// The habit's description.
    pub fn description(&self) -> (description: &str)
        ensures
            description@ == self@.data.description,
    {
        self.data.description.as_str()
    }

    /// Creates a habit with the given content in the database. Fails with
    /// `StorageFailure` when the owner is not in the player table, or no
    /// identifier is left.
    pub fn create(db: &mut Database, habit_data: HabitData) -> (habit: Result<Habit, RouteError>)
        requires
            old(db).wf(),
        ensures
            final(db).wf(),
            match old(db)@.create_habit(habit_data@) {
                Ok((after, created)) => habit is Ok && habit.unwrap()@ == created && final(db)@
                    == after,
                Err(e) => habit == Err::<Habit, RouteError>(e) && final(db)@ == old(db)@,
            },
    {
        let data = habit_data.clone();
        match db.create_habit(habit_data) {
            Err(e) => Err(e),
            Ok(id) => Ok(Habit { id, data }),
        }
    }

    /// Loads the habit of this identifier. Fails with `NotFound` when there
    /// is none.
    pub fn from_id(db: &Database, id: HabitId) -> (habit: Result<Habit, RouteError>)
        requires
            db.wf(),
        ensures
            match db@.habit(id.0 as int) {
                Ok(stored) => habit is Ok && habit.unwrap()@ == stored,
                Err(e) => habit == Err::<Habit, RouteError>(e),
            },
    {
        match db.get_habit(id) {
            None => Err(RouteError::NotFound { kind: EntityKind::Habit, id: id.0 }),
            Some(habit) => Ok(habit),
        }
    }

    /// Loads all habits, in the order in which they were created.
    pub fn all_habits(db: &Database) -> (habits: Vec<Habit>)
        ensures
            rows_of(habits@) == db@.habits,
    {
        db.get_habits()
    }

    /// Loads the habits of one player, in the order in which they were
    /// created.
    pub fn player_habits(db: &Database, player_id: PlayerId) -> (habits: Vec<Habit>)
        ensures
            rows_of(habits@) == db@.habits_of(player_id.0 as int),
    {
        db.get_player_habits(player_id)
    }

    /// Counts one repetition of the habit: the owner gains the reward and is
    /// leveled up. Nothing guards against a second call: every call that
    /// succeeds grants the reward once more. Returns the owner as the owner
    /// then is.
    ///
    /// The habit is read from the database anew, by the identifier that
    /// `self` holds, and `self` becomes what its row holds.
    ///
    /// Fails with `NotFound` when the database has no row for the habit, with
    /// `Inconsistency` when the owner or the owner's level is missing, and
    /// with `NotFound` when the reward takes the owner past the last level.
    /// When it fails, neither the database nor `self` has changed.
    pub fn increment(&mut self, db: &mut Database) -> (done: Result<Player, RouteError>)
        requires
            old(db).wf(),
        ensures
            final(db).wf(),
            match old(db)@.increment_habit(old(self).id.0 as int) {
                Ok((after, habit, owner)) => done is Ok && done.unwrap()@ == owner && final(db)@
                    == after && final(self)@ == habit,
                Err(e) => done == Err::<Player, RouteError>(e) && final(db)@ == old(db)@
                    && *final(self) == *old(self),
            },
    {
        let place = match db.find_habit(self.id) {
            None => {
                return Err(RouteError::NotFound { kind: EntityKind::Habit, id: self.id.0 });
            },
            Some(place) => place,
        };
        let stored = db.habit_at(place).clone();
        let mut owner = match Player::from_id(db, stored.data.player_id) {
            Err(_) => {
                return Err(RouteError::Inconsistency);
            },
            Ok(owner) => owner,
        };
        match owner.add_xp(db, COMPLETION_REWARD) {
            Err(e) => Err(e),
            Ok(()) => {
                *self = stored;
                Ok(owner)
            },
        }
    }
}

} // verus!
