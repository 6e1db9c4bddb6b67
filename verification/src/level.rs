//! The level catalog and the rule by which experience turns into levels.
//!
//! Experience is counted in whole units, a thousand to the point, so that
//! every amount is exact.
//!
//! A player can lose experience as well as gain it, but can never have less
//! than none. A player cannot rise past the last level either: a gain that
//! would take the player there fails, and the player stays where the player
//! is.

use vstd::prelude::*;
use crate::database::Database;
use crate::error::{EntityKind, RouteError};
use crate::ids::LevelId;

verus! {

/// The number of units that make up one experience point.
pub const XP_UNITS_PER_POINT: i64 = 1000;

/// The experience that one completed task, or one repetition of a habit, is
/// worth: one point.
pub const COMPLETION_REWARD: i64 = 1000;

/// The catalog as a sequence: entry `i` is the experience that level `i + 1`
/// asks for. Every entry is positive, and the levels can be numbered in an
/// `i64`.
pub open spec fn valid_catalog(levels: Seq<int>) -> bool {
    &&& levels.len() < i64::MAX
    &&& forall|i: int| 0 <= i < levels.len() ==> 0 < #[trigger] levels[i] <= i64::MAX
}

/// Whether the catalog has a level of this number.
pub open spec fn has_level(levels: Seq<int>, level: int) -> bool {
    1 <= level <= levels.len()
}

/// The number of the level that would follow the last one.
pub open spec fn past_last(levels: Seq<int>) -> int {
    levels.len() as int + 1
}

/// The experience that a level asks for, if the catalog has the level.
pub open spec fn requirement(levels: Seq<int>, level: int) -> Option<int> {
    if has_level(levels, level) {
        Some(levels[level - 1])
    } else {
        None
    }
}

/// Where the leveling of a player ends.
pub enum Standing {
    /// The player comes to rest at `level` with `xp` left over.
    Settled { xp: int, level: int },
    /// The catalog has no level of the number `level`, which the player would
    /// have to be measured against.
    OffCatalog { level: int },
}

/// Levels a player up. As long as the experience `xp` reaches what the
/// current level asks for, that amount is taken off and the player moves on to
/// the next level.
pub open spec fn cascade(levels: Seq<int>, xp: int, level: int) -> Standing
    decreases levels.len() + 1 - level,
{
    if level < 1 || level > levels.len() {
        Standing::OffCatalog { level }
    } else if xp >= levels[level - 1] {
        cascade(levels, xp - levels[level - 1], level + 1)
    } else {
        Standing::Settled { xp, level }
    }
}

/// What becomes of a player at `level` with `xp` who gains `delta`: the new
/// experience and level.
///
/// The gain fails with `NotFound` when the player would have to be measured
/// against a level that the catalog lacks, and with `StorageFailure` when the
/// player would be left with less than no experience.
pub open spec fn gain(levels: Seq<int>, xp: int, level: int, delta: int) -> Result<
    (int, int),
    RouteError,
> {
    match cascade(levels, xp + delta, level) {
        Standing::OffCatalog { level: missing } => Err(
            RouteError::NotFound { kind: EntityKind::Level, id: missing as i64 },
        ),
        Standing::Settled { xp: rest, level: reached } => if rest < 0 {
            Err(RouteError::StorageFailure)
        } else {
            Ok((rest, reached))
        },
    }
}

/// Whether a player at `level` with `xp` is at rest: the experience is not
/// negative and falls short of what the level asks for.
pub open spec fn at_rest(levels: Seq<int>, xp: int, level: int) -> bool {
    has_level(levels, level) && 0 <= xp < levels[level - 1]
}

/// The experience that the levels from `from` up to `to`, the last one left
/// out, ask for together.
pub open spec fn span(levels: Seq<int>, from: int, to: int) -> int
    decreases to - from,
{
    if to <= from {
        0
    } else {
        levels[from - 1] + span(levels, from + 1, to)
    }
}

/// All the experience that a player at `level` with `xp` has gathered since
/// the player began: what the levels left behind asked for, and `xp`.
pub open spec fn earned(levels: Seq<int>, xp: int, level: int) -> int {
    span(levels, 1, level) + xp
}

/// The levels from `from` to `to` ask for what those from `from` to `mid`
/// and those from `mid` to `to` ask for.
pub proof fn lemma_span_split(levels: Seq<int>, from: int, mid: int, to: int)
    requires
        from <= mid <= to,
    ensures
        span(levels, from, to) == span(levels, from, mid) + span(levels, mid, to),
    decreases mid - from,
{
    if from < mid {
        lemma_span_split(levels, from + 1, mid, to);
    }
}

/// Where leveling ends. If the player comes to rest, it is on a level of the
/// catalog, not below the one where the player began, with less experience
/// than that level asks for; nothing is lost or made on the way; and the
/// experience left is negative only where it was so from the start. If the
/// player does not come to rest, the level that is missing is not below the
/// one where the player began.
pub proof fn lemma_cascade(levels: Seq<int>, xp: int, level: int)
    requires
        valid_catalog(levels),
    ensures
        match cascade(levels, xp, level) {
            Standing::Settled { xp: rest, level: reached } => {
                &&& level <= reached
                &&& has_level(levels, reached)
                &&& rest < levels[reached - 1]
                &&& rest + span(levels, level, reached) == xp
                &&& (rest < 0 <==> xp < 0)
            },
            Standing::OffCatalog { level: missing } => {
                &&& level <= missing
                &&& !has_level(levels, missing)
                &&& (has_level(levels, level) ==> missing == past_last(levels) && xp >= span(
                    levels,
                    level,
                    missing,
                ))
            },
        },
    decreases levels.len() + 1 - level,
{
    if has_level(levels, level) && xp >= levels[level - 1] {
        let needed = levels[level - 1];
        lemma_cascade(levels, xp - needed, level + 1);
        match cascade(levels, xp - needed, level + 1) {
            Standing::Settled { xp: rest, level: reached } => {
                assert(span(levels, level, reached) == needed + span(levels, level + 1, reached));
            },
            Standing::OffCatalog { level: missing } => {
                assert(span(levels, level, missing) == needed + span(levels, level + 1, missing));
                assert(span(levels, level + 1, level + 1) == 0);
            },
        }
    }
}

/// A gain that succeeds leaves the player at rest: with experience that is
/// not negative and is less than the level reached asks for. The player has
/// not lost a level, and has gathered exactly `delta` more than before.
pub proof fn lemma_gain(levels: Seq<int>, xp: int, level: int, delta: int)
    requires
        valid_catalog(levels),
        gain(levels, xp, level, delta) is Ok,
    ensures
        ({
            let (rest, reached) = gain(levels, xp, level, delta).unwrap();
            &&& at_rest(levels, rest, reached)
            &&& level <= reached
            &&& earned(levels, rest, reached) == earned(levels, xp, level) + delta
        }),
{
    lemma_cascade(levels, xp + delta, level);
    let (rest, reached) = gain(levels, xp, level, delta).unwrap();
    if 1 <= level {
        lemma_span_split(levels, 1, level, reached);
    }
}

/// When a gain succeeds and when it fails. It succeeds if and only if the
/// catalog has the player's level, the experience does not become negative,
/// and it does not reach what the levels from the player's own to the last
/// ask for together.
pub proof fn lemma_gain_succeeds(levels: Seq<int>, xp: int, level: int, delta: int)
    requires
        valid_catalog(levels),
    ensures
        gain(levels, xp, level, delta) is Ok <==> has_level(levels, level) && 0 <= xp + delta
            < span(levels, level, past_last(levels)),
        !has_level(levels, level) ==> gain(levels, xp, level, delta) == Err::<
            (int, int),
            RouteError,
        >(RouteError::NotFound { kind: EntityKind::Level, id: level as i64 }),
        has_level(levels, level) && xp + delta < 0 ==> gain(levels, xp, level, delta) == Err::<
            (int, int),
            RouteError,
        >(RouteError::StorageFailure),
        has_level(levels, level) && xp + delta >= span(levels, level, past_last(levels)) ==> gain(
            levels,
            xp,
            level,
            delta,
        ) == Err::<(int, int), RouteError>(
            RouteError::NotFound { kind: EntityKind::Level, id: past_last(levels) as i64 },
        ),
{
    lemma_cascade(levels, xp + delta, level);
    match cascade(levels, xp + delta, level) {
        Standing::Settled { xp: rest, level: reached } => {
            lemma_span_split(levels, level, reached, past_last(levels));
            lemma_span_positive(levels, reached, past_last(levels));
        },
        Standing::OffCatalog { level: missing } => {
            if has_level(levels, level) {
                lemma_span_positive(levels, level, past_last(levels));
            }
        },
    }
}

/// Levels of the catalog ask for at least as much together as the first of
/// them asks for alone.
pub proof fn lemma_span_positive(levels: Seq<int>, from: int, to: int)
    requires
        valid_catalog(levels),
        1 <= from < to <= levels.len() + 1,
    ensures
        span(levels, from, to) >= levels[from - 1] > 0,
    decreases to - from,
{
    if from + 1 < to {
        lemma_span_positive(levels, from + 1, to);
    } else {
        assert(span(levels, from + 1, to) == 0);
    }
}

/// Experience that is gained in two parts levels the player as the whole
/// does, as long as the second part is not negative.
pub proof fn lemma_cascade_additive(levels: Seq<int>, xp: int, level: int, more: int)
    requires
        valid_catalog(levels),
        0 <= more,
        cascade(levels, xp, level) is Settled,
    ensures
        cascade(levels, xp + more, level) == cascade(
            levels,
            cascade(levels, xp, level)->Settled_xp + more,
            cascade(levels, xp, level)->Settled_level,
        ),
    decreases levels.len() + 1 - level,
{
    if has_level(levels, level) && xp >= levels[level - 1] {
        lemma_cascade_additive(levels, xp - levels[level - 1], level + 1, more);
    }
}

/// A player at rest who gains nothing stays as the player is.
pub proof fn lemma_gain_nothing(levels: Seq<int>, xp: int, level: int)
    requires
        at_rest(levels, xp, level),
    ensures
        gain(levels, xp, level, 0) == Ok::<(int, int), RouteError>((xp, level)),
{
}

/// One level of the catalog.
#[derive(Clone, Copy, Debug, PartialEq, Eq, Structural)]
pub struct Level {
    pub id: LevelId,
    /// The experience that a player needs to leave the level, in units.
    pub xp_requirement: i64,
}

impl Level {
    /// The levels that a catalog holds: entry `i` is level `i + 1`.
    pub open spec fn of_catalog(levels: Seq<int>) -> Seq<Level> {
        Seq::new(
            levels.len(),
            |i: int| Level { id: LevelId((i + 1) as i64), xp_requirement: levels[i] as i64 },
        )
    }

    /// Whether the levels are numbered from 1 without gaps.
    pub open spec fn numbered(levels: Seq<Level>) -> bool {
        forall|i: int| 0 <= i < levels.len() ==> (#[trigger] levels[i]).id.0 == i + 1
    }

    /// What the levels ask for, one after the other.
    pub open spec fn requirements(levels: Seq<Level>) -> Seq<int> {
        levels.map_values(|level: Level| level.xp_requirement as int)
    }

    /// Loads the level of this number. Fails with `NotFound` when the catalog
    /// has none.
    pub fn from_id(db: &Database, id: LevelId) -> (level: Result<Level, RouteError>)
        requires
            db.wf(),
        ensures
            match db@.level(id.0 as int) {
                Ok(xp) => level == Ok::<Level, RouteError>(Level { id, xp_requirement: xp as i64 })
                    && level.unwrap().xp_requirement == xp,
                Err(e) => level == Err::<Level, RouteError>(e),
            },
    {
        match db.levels().xp_requirement(id) {
            Err(e) => Err(e),
            Ok(xp_requirement) => Ok(Level { id, xp_requirement }),
        }
    }

    /// Loads all levels, from level 1 on.
    pub fn all_levels(db: &Database) -> (levels: Vec<Level>)
        requires
            db.wf(),
        ensures
            levels@ == Level::of_catalog(db@.levels),
    {
        db.levels().levels()
    }

    /// The experience that a player needs to leave this level.
    pub fn xp_requirement(&self) -> (xp: i64)
        ensures
            xp == self.xp_requirement,
    {
        self.xp_requirement
    }
}

/// The levels of the game, in order. The catalog is filled once and never
/// changes afterwards.
pub struct LevelCatalog {
    requirements: Vec<i64>,
}

impl View for LevelCatalog {
    type V = Seq<int>;

    closed spec fn view(&self) -> Seq<int> {
        self.requirements@.map_values(|xp: i64| xp as int)
    }
}

impl LevelCatalog {
    /// The invariant of the type.
    pub open spec fn wf(&self) -> bool {
        valid_catalog(self@)
    }

    /// Fills a catalog from the list of requirements: the entry at index `i`
    /// becomes level `i + 1`. A requirement that is not positive is refused.
    pub fn seed(xp_requirements: Vec<i64>) -> (catalog: Result<LevelCatalog, RouteError>)
        ensures
            match catalog {
                Ok(c) => c.wf() && c@ == xp_requirements@.map_values(|xp: i64| xp as int),
                Err(e) => e == RouteError::StorageFailure,
            },
            catalog is Ok <==> valid_catalog(xp_requirements@.map_values(|xp: i64| xp as int)),
    {
        let ghost levels = xp_requirements@.map_values(|xp: i64| xp as int);
        if xp_requirements.len() as u64 >= 0x7fff_ffff_ffff_ffff {
            return Err(RouteError::StorageFailure);
        }
        let mut i: usize = 0;
        while i < xp_requirements.len()
            invariant
                i <= xp_requirements.len(),
                levels == xp_requirements@.map_values(|xp: i64| xp as int),
                forall|k: int| 0 <= k < i ==> 0 < #[trigger] levels[k] <= i64::MAX,
            decreases xp_requirements.len() - i,
        {
            if xp_requirements[i] <= 0 {
                assert(!(0 < levels[i as int]));
                return Err(RouteError::StorageFailure);
            }
            i += 1;
        }
        Ok(LevelCatalog { requirements: xp_requirements })
    }

    /// The number of levels.
    pub fn len(&self) -> (n: usize)
        ensures
            n == self@.len(),
    {
        self.requirements.len()
    }

    /// All levels, from level 1 on.
    pub fn levels(&self) -> (levels: Vec<Level>)
        requires
            self.wf(),
        ensures
            levels@ == Level::of_catalog(self@),
    {
        let mut levels: Vec<Level> = Vec::new();
        let mut i: usize = 0;
        while i < self.requirements.len()
            invariant
                i <= self.requirements.len(),
                self.wf(),
                levels@ == Level::of_catalog(self@.take(i as int)),
            decreases self.requirements.len() - i,
        {
            let level = Level { id: LevelId((i + 1) as i64), xp_requirement: self.requirements[i] };
            levels.push(level);
            i += 1;
            assert(levels@ =~= Level::of_catalog(self@.take(i as int)));
        }
        assert(self@.take(i as int) =~= self@);
        levels
    }

    /// The experience that a level asks for. Fails with `NotFound` when the
    /// catalog has no such level.
    pub fn xp_requirement(&self, level_id: LevelId) -> (xp: Result<i64, RouteError>)
        ensures
            match requirement(self@, level_id.0 as int) {
                Some(r) => xp == Ok::<i64, RouteError>(r as i64) && xp.unwrap() == r,
                None => xp == Err::<i64, RouteError>(
                    RouteError::NotFound { kind: EntityKind::Level, id: level_id.0 },
                ),
            },
    {
        if level_id.0 < 1 || level_id.0 as u64 > self.requirements.len() as u64 {
            return Err(RouteError::NotFound { kind: EntityKind::Level, id: level_id.0 });
        }
        let index = (level_id.0 - 1) as usize;
        Ok(self.requirements[index])
    }

    /// Grants `xp_delta` to a player who stands at `level_id` with `xp`, and
    /// levels the player up as far as the experience reaches. Returns the
    /// experience that is left and the level that was reached.
    ///
    /// The sign of `xp_delta` is not looked at: experience may be taken away
    /// as well, as long as the player is not left with less than none.
    pub fn advance(&self, xp: i64, level_id: LevelId, xp_delta: i64) -> (standing: Result<
        (i64, LevelId),
        RouteError,
    >)
        requires
            self.wf(),
        ensures
            match gain(self@, xp as int, level_id.0 as int, xp_delta as int) {
                Ok((rest, reached)) => standing == Ok::<(i64, LevelId), RouteError>(
                    (rest as i64, LevelId(reached as i64)),
                ) && standing.unwrap().0 == rest && standing.unwrap().1.0 == reached,
                Err(e) => standing == Err::<(i64, LevelId), RouteError>(e),
            },
            standing is Ok ==> at_rest(self@, standing.unwrap().0 as int, standing.unwrap().1.0 as int),
    {
        let mut rest: i128 = xp as i128 + xp_delta as i128;
        let mut level = level_id;
        loop
            invariant
                self.wf(),
                cascade(self@, rest as int, level.0 as int) == cascade(
                    self@,
                    xp + xp_delta,
                    level_id.0 as int,
                ),
                2 * i64::MIN <= rest <= 2 * i64::MAX,
            decreases self@.len() + 1 - level.0,
        {
            let needed = match self.xp_requirement(level) {
                Err(e) => {
                    return Err(e);
                },
                Ok(needed) => needed,
            };
            if rest >= needed as i128 {
                rest = rest - needed as i128;
                level = level.next_level();
            } else if rest < 0 {
                return Err(RouteError::StorageFailure);
            } else {
                return Ok((rest as i64, level));
            }
        }
    }
}

} // verus!
