use habi2ca::error::{EntityKind, RouteError};
use habi2ca::ids::LevelId;
use habi2ca::level::{Level, LevelCatalog, COMPLETION_REWARD, XP_UNITS_PER_POINT};

/// A catalog whose levels ask for the given numbers of whole points.
fn catalog(points: &[i64]) -> LevelCatalog {
    LevelCatalog::seed(points.iter().map(|p| p * XP_UNITS_PER_POINT).collect()).unwrap()
}

fn points(p: i64) -> i64 {
    p * XP_UNITS_PER_POINT
}

#[test]
fn reward_is_one_point() {
    assert_eq!(XP_UNITS_PER_POINT, 1000);
    assert_eq!(COMPLETION_REWARD, XP_UNITS_PER_POINT);
}

#[test]
fn next_level_is_one_more() {
    assert_eq!(LevelId(1).next_level(), LevelId(2));
    assert_eq!(LevelId(41).next_level(), LevelId(42));
}

#[test]
fn seed_numbers_levels_from_one() {
    let levels = catalog(&[10, 20, 40]);
    assert_eq!(levels.len(), 3);
    assert_eq!(
        levels.levels(),
        vec![
            Level { id: LevelId(1), xp_requirement: 10_000 },
            Level { id: LevelId(2), xp_requirement: 20_000 },
            Level { id: LevelId(3), xp_requirement: 40_000 },
        ]
    );
    assert_eq!(levels.levels()[1].xp_requirement(), 20_000);
}

#[test]
fn seed_refuses_requirement_that_is_not_positive() {
    assert!(matches!(LevelCatalog::seed(vec![10, 0, 30]), Err(RouteError::StorageFailure)));
    assert!(matches!(LevelCatalog::seed(vec![-1]), Err(RouteError::StorageFailure)));
    assert!(LevelCatalog::seed(vec![1]).is_ok());
}

#[test]
fn seed_of_nothing_is_an_empty_catalog() {
    let levels = LevelCatalog::seed(Vec::new()).unwrap();
    assert_eq!(levels.len(), 0);
    assert_eq!(
        levels.xp_requirement(LevelId(1)),
        Err(RouteError::NotFound { kind: EntityKind::Level, id: 1 })
    );
}

#[test]
fn xp_requirement_of_each_level() {
    let levels = catalog(&[10, 20]);
    assert_eq!(levels.xp_requirement(LevelId(1)), Ok(10_000));
    assert_eq!(levels.xp_requirement(LevelId(2)), Ok(20_000));
}

#[test]
fn xp_requirement_of_missing_level_is_not_found() {
    let levels = catalog(&[10, 20]);
    for id in [0, -1, 3, i64::MAX, i64::MIN] {
        assert_eq!(
            levels.xp_requirement(LevelId(id)),
            Err(RouteError::NotFound { kind: EntityKind::Level, id })
        );
    }
}

#[test]
fn cascading_level_up() {
    let levels = catalog(&[10, 20]);
    assert_eq!(levels.advance(points(8), LevelId(1), points(5)), Ok((points(3), LevelId(2))));
}

#[test]
fn multi_level_cascade() {
    let levels = catalog(&[5, 5, 100]);
    assert_eq!(levels.advance(points(4), LevelId(1), points(7)), Ok((points(1), LevelId(3))));
}

#[test]
fn gain_below_requirement_keeps_level() {
    let levels = catalog(&[10, 20]);
    assert_eq!(levels.advance(0, LevelId(1), points(9)), Ok((points(9), LevelId(1))));
    assert_eq!(levels.advance(points(9), LevelId(1), 999), Ok((9_999, LevelId(1))));
}

#[test]
fn gain_that_meets_requirement_exactly_levels_up_with_nothing_left() {
    let levels = catalog(&[10, 20]);
    assert_eq!(levels.advance(points(4), LevelId(1), points(6)), Ok((0, LevelId(2))));
}

#[test]
fn gain_of_nothing_changes_nothing() {
    let levels = catalog(&[10, 20]);
    assert_eq!(levels.advance(points(3), LevelId(2), 0), Ok((points(3), LevelId(2))));
}

#[test]
fn fractions_of_a_point_are_exact() {
    let levels = catalog(&[10, 20]);
    // 9.5 points and one more point: level 2 with half a point.
    assert_eq!(levels.advance(9_500, LevelId(1), COMPLETION_REWARD), Ok((500, LevelId(2))));
}

#[test]
fn many_levels_in_one_gain() {
    let levels = LevelCatalog::seed(vec![1; 10_000]).unwrap();
    assert_eq!(levels.advance(0, LevelId(1), 9_999), Ok((0, LevelId(10_000))));
    assert_eq!(levels.advance(0, LevelId(1), 4_321), Ok((0, LevelId(4_322))));
}

#[test]
fn gain_past_the_last_level_is_not_found() {
    let levels = catalog(&[10, 20]);
    assert_eq!(
        levels.advance(points(8), LevelId(1), points(22)),
        Err(RouteError::NotFound { kind: EntityKind::Level, id: 3 })
    );
    // One unit less stays within the catalog.
    assert_eq!(levels.advance(points(8), LevelId(1), points(22) - 1), Ok((19_999, LevelId(2))));
}

#[test]
fn gain_on_a_level_that_the_catalog_lacks_is_not_found() {
    let levels = catalog(&[10, 20]);
    assert_eq!(
        levels.advance(0, LevelId(7), points(1)),
        Err(RouteError::NotFound { kind: EntityKind::Level, id: 7 })
    );
    assert_eq!(
        levels.advance(0, LevelId(0), points(1)),
        Err(RouteError::NotFound { kind: EntityKind::Level, id: 0 })
    );
}

#[test]
fn loss_is_applied_as_long_as_experience_stays_above_zero() {
    let levels = catalog(&[10, 20]);
    assert_eq!(levels.advance(points(8), LevelId(1), -points(5)), Ok((points(3), LevelId(1))));
    assert_eq!(levels.advance(points(8), LevelId(1), -points(8)), Ok((0, LevelId(1))));
}

#[test]
fn loss_below_zero_is_a_storage_failure() {
    let levels = catalog(&[10, 20]);
    assert_eq!(levels.advance(points(8), LevelId(1), -points(8) - 1), Err(RouteError::StorageFailure));
    assert_eq!(levels.advance(0, LevelId(2), i64::MIN), Err(RouteError::StorageFailure));
}

#[test]
fn largest_amounts_do_not_overflow() {
    let levels = LevelCatalog::seed(vec![i64::MAX, i64::MAX, i64::MAX]).unwrap();
    assert_eq!(
        levels.advance(i64::MAX, LevelId(1), i64::MAX),
        Ok((0, LevelId(3)))
    );
    assert_eq!(
        levels.advance(i64::MAX - 1, LevelId(1), i64::MAX),
        Ok((i64::MAX - 1, LevelId(2)))
    );
    assert_eq!(levels.advance(i64::MIN, LevelId(1), i64::MIN), Err(RouteError::StorageFailure));
}

#[test]
fn player_is_at_rest_after_every_gain() {
    let requirements = [3, 1, 4, 1, 5, 9, 2, 6];
    let levels = LevelCatalog::seed(requirements.to_vec()).unwrap();
    for start in 0..3 {
        for delta in -3..40 {
            match levels.advance(start, LevelId(1), delta) {
                Ok((xp, level)) => {
                    let needed = requirements[(level.0 - 1) as usize];
                    assert!(0 <= xp && xp < needed, "{start} + {delta} gave {xp} on {level:?}");
                    let passed: i64 = requirements[..(level.0 - 1) as usize].iter().sum();
                    assert_eq!(passed + xp, start + delta);
                }
                Err(RouteError::StorageFailure) => assert!(start + delta < 0),
                Err(RouteError::NotFound { kind, id }) => {
                    assert_eq!(kind, EntityKind::Level);
                    assert_eq!(id, 9);
                    assert!(start + delta >= requirements.iter().sum::<i64>());
                }
                Err(RouteError::Inconsistency) => panic!("no row is involved"),
            }
        }
    }
}
