//! Players and their progress.

use vstd::prelude::*;
use crate::database::Database;
use crate::error::{EntityKind, RouteError};
use crate::ids::{LevelId, PlayerId};
use crate::laws::{lemma_add_xp_effect, lemma_players_at_rest};
use crate::level::{at_rest, has_level};
use crate::table::{rows_of, Record, Row};

verus! {

/// What a player holds besides its identifier.
#[derive(Debug, PartialEq, Eq)]
pub struct PlayerData {
    pub name: String,
    /// The experience gathered on the current level, in units.
    pub xp: i64,
    /// The current level.
    pub level_id: LevelId,
}

/// A player of the database.
#[derive(Debug, PartialEq, Eq)]
pub struct Player {
    pub id: PlayerId,
    pub data: PlayerData,
}

/// The mathematical content of a [`PlayerData`].
#[verifier::ext_equal]
pub struct PlayerDataView {
    pub name: Seq<char>,
    pub xp: int,
    pub level: int,
}

/// The mathematical content of a [`Player`]: a row of the player table.
pub type PlayerView = Row<PlayerDataView>;

impl View for PlayerData {
    type V = PlayerDataView;

    open spec fn view(&self) -> PlayerDataView {
        PlayerDataView { name: self.name@, xp: self.xp as int, level: self.level_id.0 as int }
    }
}

impl View for Player {
    type V = PlayerView;

    open spec fn view(&self) -> PlayerView {
        Row { id: self.id.0 as int, data: self.data@ }
    }
}

impl Clone for PlayerData {
    fn clone(&self) -> (copy: Self)
        ensures
            copy == *self,
    {
        PlayerData { name: self.name.clone(), xp: self.xp, level_id: self.level_id }
    }
}

impl Clone for Player {
    fn clone(&self) -> (copy: Self)
        ensures
            copy == *self,
    {
        Player { id: self.id, data: self.data.clone() }
    }
}

impl Record for Player {
    type Content = PlayerDataView;

    open spec fn row(&self) -> PlayerView {
        self@
    }

    fn key(&self) -> (id: i64) {
        self.id.0
    }

    fn duplicate(&self) -> (copy: Self) {
        self.clone()
    }
}

impl PlayerDataView {
    /// A player who has just begun: no experience, first level.
    pub open spec fn fresh(name: Seq<char>) -> PlayerDataView {
        PlayerDataView { name, xp: 0, level: 1 }
    }

    /// What the player table accepts: experience that is not negative, and
    /// a level of at least 1.
    pub open spec fn valid(self) -> bool {
        0 <= self.xp && 1 <= self.level
    }
}

impl PlayerData {
    /// A player who has just begun: no experience, first level.
    pub fn new(name: &str) -> (data: PlayerData)
        ensures
            data@ == PlayerDataView::fresh(name@),
    {
        PlayerData { name: name.to_owned(), xp: 0, level_id: LevelId(1) }
    }

    /// The player's name.
    pub fn name(&self) -> (name: &str)
        ensures
            name@ == self@.name,
    {
        self.name.as_str()
    }

    /// The experience gathered on the current level.
    pub fn xp(&self) -> (xp: i64)
        ensures
            xp == self.xp,
    {
        self.xp
    }
}

impl Player {
    /// The player with this identifier and content.
    pub fn new(id: PlayerId, data: PlayerData) -> (player: Player)
        ensures
            player == (Player { id, data }),
    {
        Player { id, data }
    }

    /// The player's identifier.
    pub fn id(&self) -> (id: PlayerId)
        ensures
            id == self.id,
    {
        self.id
    }

    /// The player's name.
    pub fn name(&self) -> (name: &str)
        ensures
            name@ == self@.data.name,
    {
        self.data.name.as_str()
    }

    /// The experience gathered on the current level.
    pub fn xp(&self) -> (xp: i64)
        ensures
            xp == self.data.xp,
    {
        self.data.xp
    }

    /// The player's current level.
    pub fn level(&self) -> (level: LevelId)
        ensures
            level == self.data.level_id,
    {
        self.data.level_id
    }

    /// Creates a player of that name in the database: with no experience, on
    /// level 1. Fails with `NotFound` when the catalog has no level 1, and
    /// with `StorageFailure` when no identifier is left.
    pub fn create(db: &mut Database, name: &str) -> (player: Result<Player, RouteError>)
        requires
            old(db).wf(),
        ensures
            final(db).wf(),
            match old(db)@.create_player(name@) {
                Ok((after, created)) => player is Ok && player.unwrap()@ == created && final(db)@
                    == after,
                Err(e) => player == Err::<Player, RouteError>(e) && final(db)@ == old(db)@,
            },
    {
        if db.levels().len() == 0 {
            return Err(RouteError::NotFound { kind: EntityKind::Level, id: 1 });
        }
        match db.create_player(name) {
            Err(e) => Err(e),
            Ok(id) => Ok(Player { id, data: PlayerData::new(name) }),
        }
    }

    /// Loads the player of this identifier. Fails with `NotFound` when there
    /// is no such player, and with `Inconsistency` when the catalog lacks the
    /// player's level. A player that is loaded is at rest.
    pub fn from_id(db: &Database, id: PlayerId) -> (player: Result<Player, RouteError>)
        requires
            db.wf(),
        ensures
            match db@.player(id.0 as int) {
                Ok(stored) => player is Ok && player.unwrap()@ == stored,
                Err(e) => player == Err::<Player, RouteError>(e),
            },
            player is Ok ==> at_rest(
                db@.levels,
                player.unwrap()@.data.xp,
                player.unwrap()@.data.level,
            ),
    {
        proof {
            if db@.player(id.0 as int) is Ok {
                lemma_players_at_rest(db@, id.0 as int);
            }
        }
        match db.get_player(id) {
            None => Err(RouteError::NotFound { kind: EntityKind::Player, id: id.0 }),
            Some(player) => {
                if db.levels().xp_requirement(player.data.level_id).is_err() {
                    return Err(RouteError::Inconsistency);
                }
                Ok(player)
            },
        }
    }

    /// Loads all players, in the order in which they were created. Fails
    /// with `Inconsistency` when the catalog lacks the level of one of them.
    pub fn all(db: &Database) -> (players: Result<Vec<Player>, RouteError>)
        requires
            db.wf(),
        ensures
            match db@.all_players() {
                Ok(stored) => players is Ok && rows_of(players.unwrap()@) == stored,
                Err(e) => players == Err::<Vec<Player>, RouteError>(e),
            },
    {
        let players = db.get_players();
        let mut i: usize = 0;
        while i < players.len()
            invariant
                i <= players.len(),
                db.wf(),
                rows_of(players@) == db@.players,
                forall|k: int|
                    0 <= k < i ==> has_level(db@.levels, (#[trigger] db@.players[k]).data.level),
            decreases players.len() - i,
        {
            assert(players@[i as int]@ == rows_of(players@)[i as int]);
            if db.levels().xp_requirement(players[i].data.level_id).is_err() {
                assert(!has_level(db@.levels, db@.players[i as int].data.level));
                return Err(RouteError::Inconsistency);
            }
            i += 1;
        }
        Ok(players)
    }

    /// The experience that the player's level asks for. Fails with
    /// `NotFound` when the catalog lacks that level.
    pub fn xp_requirement(&self, db: &Database) -> (xp: Result<i64, RouteError>)
        requires
            db.wf(),
        ensures
            match db@.level(self@.data.level) {
                Ok(r) => xp == Ok::<i64, RouteError>(r as i64) && xp.unwrap() == r,
                Err(e) => xp == Err::<i64, RouteError>(e),
            },
    {
        db.levels().xp_requirement(self.data.level_id)
    }

    /// Grants `xp_delta` to the player and levels the player up: as long as
    /// the experience reaches what the current level asks for, that amount is
    /// taken off and the player moves on to the next level.
    ///
    /// The player is read from the database anew, by the identifier that
    /// `self` holds; what is granted is added to what is stored. The outcome
    /// is stored in the player's row, and `self` becomes what the row then
    /// holds.
    ///
    /// The sign of `xp_delta` is not looked at. A player may lose experience,
    /// but is never left with less than none: that fails with
    /// `StorageFailure`. The grant fails with `NotFound` when the database has
    /// no row for the player, with `Inconsistency` when the catalog lacks the
    /// player's level, and with `NotFound` when the player would rise past
    /// the last level. When it fails, neither the database nor `self` has
    /// changed.
    pub fn add_xp(&mut self, db: &mut Database, xp_delta: i64) -> (granted: Result<(), RouteError>)
        requires
            old(db).wf(),
        ensures
            final(db).wf(),
            match old(db)@.add_xp(old(self).id.0 as int, xp_delta as int) {
                Ok((after, player)) => granted is Ok && final(db)@ == after && final(self)@
                    == player,
                Err(e) => granted == Err::<(), RouteError>(e) && final(db)@ == old(db)@
                    && *final(self) == *old(self),
            },
            granted is Ok ==> at_rest(final(db)@.levels, final(self)@.data.xp, final(self)@.data.level),
    {
        proof {
            if db@.add_xp(self.id.0 as int, xp_delta as int) is Ok {
                lemma_add_xp_effect(db@, self.id.0 as int, xp_delta as int);
            }
        }
        let place = match db.find_player(self.id) {
            None => {
                return Err(RouteError::NotFound { kind: EntityKind::Player, id: self.id.0 });
            },
            Some(place) => place,
        };
        let stored = db.player_at(place);
        if db.levels().xp_requirement(stored.data.level_id).is_err() {
            return Err(RouteError::Inconsistency);
        }
        match db.levels().advance(stored.data.xp, stored.data.level_id, xp_delta) {
            Err(e) => Err(e),
            Ok((xp, level_id)) => {
                db.store_progress(place, xp, level_id);
                *self = db.player_at(place).clone();
                Ok(())
            },
        }
    }
}

} // verus!
