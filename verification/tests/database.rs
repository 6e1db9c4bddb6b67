use habi2ca::database::Database;
use habi2ca::error::{EntityKind, RouteError};
use habi2ca::habit::{Habit, HabitData};
use habi2ca::ids::{HabitId, LevelId, PlayerId, TaskId};
use habi2ca::level::Level;
use habi2ca::player::{Player, PlayerData};
use habi2ca::task::{Task, TaskData};

fn setup_database() -> Database {
    Database::create_in_memory(vec![10_000, 20_000, 40_000]).unwrap()
}

fn player(id: i64, name: &str, xp: i64, level: i64) -> Player {
    Player::new(PlayerId(id), PlayerData { name: name.to_string(), xp, level_id: LevelId(level) })
}

fn task(id: i64, owner: i64, name: &str, completed: bool) -> Task {
    Task {
        id: TaskId(id),
        data: TaskData {
            player: PlayerId(owner),
            name: name.to_string(),
            description: String::new(),
            completed,
        },
    }
}

fn habit(id: i64, owner: i64, name: &str) -> Habit {
    Habit { id: HabitId(id), data: HabitData::new(PlayerId(owner), name, "") }
}

fn levels(requirements: &[i64]) -> Vec<Level> {
    requirements
        .iter()
        .enumerate()
        .map(|(i, xp)| Level { id: LevelId(i as i64 + 1), xp_requirement: *xp })
        .collect()
}

#[test]
fn test_setup_test_database() {
    let db = setup_database();
    assert_eq!(db.get_players().len(), 0);
    assert!(db.get_players().is_empty());
    assert!(db.get_tasks().is_empty());
    assert!(db.get_habits().is_empty());
    assert_eq!(db.levels().len(), 3);
}

#[test]
fn test_utils_setup_test_database() {
    let db = setup_database();
    assert_eq!(Level::all_levels(&db), levels(&[10_000, 20_000, 40_000]));
}

#[test]
fn create_in_memory_refuses_requirement_that_is_not_positive() {
    assert!(matches!(Database::create_in_memory(vec![5, 0]), Err(RouteError::StorageFailure)));
    assert!(matches!(Database::create_in_memory(vec![-5]), Err(RouteError::StorageFailure)));
    assert!(Database::create_in_memory(Vec::new()).is_ok());
}

#[test]
fn player_create_player() {
    let mut database = setup_database();
    let player_id = database.create_player("Alice").unwrap();
    assert_eq!(player_id.0, 1);

    let player = database.get_player(player_id).unwrap();
    assert_eq!(player.id.0, 1);
    assert_eq!(player.data.name, "Alice");
    assert_eq!(player.data.xp, 0);
    assert_eq!(player.data.level_id, LevelId(1));
}

#[test]
fn identifiers_count_up_from_one_in_every_table() {
    let mut db = setup_database();
    assert_eq!(db.create_player("Alice"), Ok(PlayerId(1)));
    assert_eq!(db.create_player("Bob"), Ok(PlayerId(2)));
    assert_eq!(db.create_player("Alice"), Ok(PlayerId(3)));
    assert_eq!(db.create_task(TaskData::new(PlayerId(2), "a", "")), Ok(TaskId(1)));
    assert_eq!(db.create_task(TaskData::new(PlayerId(2), "b", "")), Ok(TaskId(2)));
    assert_eq!(db.create_habit(HabitData::new(PlayerId(3), "c", "")), Ok(HabitId(1)));
    assert_eq!(db.get_players().len(), 3);
}

#[test]
fn get_of_unknown_identifier_is_none() {
    let mut db = setup_database();
    db.create_player("Alice").unwrap();
    assert_eq!(db.get_player(PlayerId(2)), None);
    assert_eq!(db.get_player(PlayerId(0)), None);
    assert_eq!(db.get_player(PlayerId(-1)), None);
    assert_eq!(db.get_task(TaskId(1)), None);
    assert_eq!(db.get_habit(HabitId(1)), None);
}

#[test]
fn create_task_keeps_owner_name_and_description() {
    let mut db = setup_database();
    let alice = db.create_player("Alice").unwrap();
    let data = TaskData::new(alice, "Task2", "Description2");
    let id = db.create_task(data.clone()).unwrap();
    assert_eq!(db.get_task(id), Some(Task { id, data }));
}

#[test]
fn create_task_stores_the_task_as_open() {
    let mut db = setup_database();
    let alice = db.create_player("Alice").unwrap();
    let data = TaskData {
        player: alice,
        name: "Task2".to_string(),
        description: "Description2".to_string(),
        completed: true,
    };
    let id = db.create_task(data).unwrap();
    let stored = db.get_task(id).unwrap();
    assert!(!stored.data.completed());
    assert_eq!(stored.data, TaskData::new(alice, "Task2", "Description2"));
}

#[test]
fn create_task_for_unknown_player_is_a_storage_failure() {
    let mut db = setup_database();
    db.create_player("Alice").unwrap();
    assert_eq!(
        db.create_task(TaskData::new(PlayerId(2), "Task1", "Description1")),
        Err(RouteError::StorageFailure)
    );
    assert!(db.get_tasks().is_empty());
}

#[test]
fn create_habit_for_unknown_player_is_a_storage_failure() {
    let mut db = setup_database();
    assert_eq!(
        db.create_habit(HabitData::new(PlayerId(1), "Habit1", "Description1")),
        Err(RouteError::StorageFailure)
    );
    assert!(db.get_habits().is_empty());
}

#[test]
fn rows_are_listed_in_the_order_of_creation() {
    let mut db = setup_database();
    let alice = db.create_player("Alice").unwrap();
    let bob = db.create_player("Bob").unwrap();
    db.create_task(TaskData::new(bob, "b1", "")).unwrap();
    db.create_task(TaskData::new(alice, "a1", "")).unwrap();
    db.create_task(TaskData::new(bob, "b2", "")).unwrap();
    db.create_habit(HabitData::new(alice, "h1", "")).unwrap();
    db.create_habit(HabitData::new(bob, "h2", "")).unwrap();

    let names: Vec<String> = db.get_tasks().into_iter().map(|t| t.data.name).collect();
    assert_eq!(names, ["b1", "a1", "b2"]);
    let of_bob: Vec<TaskId> = db.get_player_tasks(bob).into_iter().map(|t| t.id).collect();
    assert_eq!(of_bob, [TaskId(1), TaskId(3)]);
    let of_alice: Vec<TaskId> = db.get_player_tasks(alice).into_iter().map(|t| t.id).collect();
    assert_eq!(of_alice, [TaskId(2)]);
    assert!(db.get_player_tasks(PlayerId(3)).is_empty());
    assert_eq!(db.get_player_habits(bob), vec![habit(2, 2, "h2")]);
    assert_eq!(db.get_habits(), vec![habit(1, 1, "h1"), habit(2, 2, "h2")]);
    let players: Vec<String> = db.get_players().into_iter().map(|p| p.data.name).collect();
    assert_eq!(players, ["Alice", "Bob"]);
}

#[test]
fn open_restores_what_was_stored() {
    let players = vec![player(2, "Alice", 9_500, 1), player(5, "Bob", 0, 3)];
    let tasks = vec![task(1, 2, "t1", false), task(4, 5, "t4", true)];
    let habits = vec![habit(3, 5, "h3")];
    let db = Database::open(levels(&[10_000, 20_000, 40_000]), players.clone(), tasks.clone(), habits.clone())
        .unwrap();
    assert_eq!(db.get_players(), players);
    assert_eq!(db.get_tasks(), tasks);
    assert_eq!(db.get_habits(), habits);
    assert_eq!(Level::all_levels(&db), levels(&[10_000, 20_000, 40_000]));
    assert_eq!(db.get_player(PlayerId(5)), Some(player(5, "Bob", 0, 3)));
    assert_eq!(db.get_player(PlayerId(3)), None);
}

#[test]
fn new_rows_of_an_opened_database_get_identifiers_past_the_last() {
    let mut db = Database::open(
        levels(&[10_000]),
        vec![player(2, "Alice", 0, 1), player(5, "Bob", 0, 1)],
        vec![task(7, 2, "t", false)],
        Vec::new(),
    )
    .unwrap();
    assert_eq!(db.create_player("Carol"), Ok(PlayerId(6)));
    assert_eq!(db.create_task(TaskData::new(PlayerId(6), "u", "")), Ok(TaskId(8)));
    assert_eq!(db.create_habit(HabitData::new(PlayerId(2), "h", "")), Ok(HabitId(1)));
}

#[test]
fn no_identifier_left_is_a_storage_failure() {
    let mut db = Database::open(
        levels(&[10_000]),
        vec![player(i64::MAX, "Last", 0, 1)],
        vec![task(i64::MAX, i64::MAX, "t", false)],
        vec![habit(i64::MAX, i64::MAX, "h")],
    )
    .unwrap();
    assert_eq!(db.create_player("Carol"), Err(RouteError::StorageFailure));
    assert_eq!(
        db.create_task(TaskData::new(PlayerId(i64::MAX), "u", "")),
        Err(RouteError::StorageFailure)
    );
    assert_eq!(
        db.create_habit(HabitData::new(PlayerId(i64::MAX), "u", "")),
        Err(RouteError::StorageFailure)
    );
    assert_eq!(db.get_players().len(), 1);
    assert_eq!(db.get_tasks().len(), 1);
    assert_eq!(db.get_habits().len(), 1);
}

#[test]
fn open_accepts_rows_whose_owner_is_missing() {
    let db = Database::open(levels(&[10_000]), Vec::new(), vec![task(1, 9, "t", false)], vec![habit(1, 9, "h")]);
    assert!(db.is_ok());
}

#[test]
fn open_refuses_levels_with_a_gap() {
    let opened = |levels: Vec<Level>| Database::open(levels, Vec::new(), Vec::new(), Vec::new());
    let level = |id: i64, xp: i64| Level { id: LevelId(id), xp_requirement: xp };
    assert!(matches!(opened(vec![level(1, 5), level(3, 5)]), Err(RouteError::StorageFailure)));
    assert!(matches!(opened(vec![level(2, 5)]), Err(RouteError::StorageFailure)));
    assert!(matches!(opened(vec![level(0, 5), level(1, 5)]), Err(RouteError::StorageFailure)));
    assert!(matches!(opened(vec![level(1, 5), level(2, 0)]), Err(RouteError::StorageFailure)));
    assert!(opened(vec![level(1, 5), level(2, 1)]).is_ok());
}

#[test]
fn open_refuses_identifiers_that_do_not_grow() {
    let with_players = |players: Vec<Player>| Database::open(levels(&[10]), players, Vec::new(), Vec::new());
    assert!(with_players(vec![player(1, "a", 0, 1), player(2, "b", 0, 1)]).is_ok());
    for ids in [[1, 1], [2, 1], [0, 1], [-3, 2]] {
        let players = vec![player(ids[0], "a", 0, 1), player(ids[1], "b", 0, 1)];
        assert!(matches!(with_players(players), Err(RouteError::StorageFailure)), "{ids:?}");
        let tasks = vec![task(ids[0], 1, "a", false), task(ids[1], 1, "b", false)];
        let refused = Database::open(levels(&[10]), Vec::new(), tasks, Vec::new());
        assert!(matches!(refused, Err(RouteError::StorageFailure)), "{ids:?}");
        let habits = vec![habit(ids[0], 1, "a"), habit(ids[1], 1, "b")];
        let refused = Database::open(levels(&[10]), Vec::new(), Vec::new(), habits);
        assert!(matches!(refused, Err(RouteError::StorageFailure)), "{ids:?}");
    }
}

#[test]
fn open_refuses_players_that_break_the_constraints() {
    let with_player = |p: Player| Database::open(levels(&[10]), vec![p], Vec::new(), Vec::new());
    assert!(matches!(with_player(player(1, "a", -1, 1)), Err(RouteError::StorageFailure)));
    assert!(matches!(with_player(player(1, "a", 0, 0)), Err(RouteError::StorageFailure)));
    // A player with as much experience as the level asks for is not at rest.
    assert!(matches!(with_player(player(1, "a", 10, 1)), Err(RouteError::StorageFailure)));
    assert!(matches!(with_player(player(1, "a", 11, 1)), Err(RouteError::StorageFailure)));
    assert!(with_player(player(1, "a", 9, 1)).is_ok());
    // A level that the catalog lacks is no broken constraint.
    assert!(with_player(player(1, "a", 0, 2)).is_ok());
    assert!(with_player(player(1, "a", 11, 2)).is_ok());
}

#[test]
fn level_from_id() {
    let db = setup_database();
    assert_eq!(Level::from_id(&db, LevelId(1)), Ok(Level { id: LevelId(1), xp_requirement: 10_000 }));
    assert_eq!(Level::from_id(&db, LevelId(3)).unwrap().xp_requirement(), 40_000);
    assert_eq!(
        Level::from_id(&db, LevelId(4)),
        Err(RouteError::NotFound { kind: EntityKind::Level, id: 4 })
    );
    assert_eq!(
        Level::from_id(&db, LevelId(0)),
        Err(RouteError::NotFound { kind: EntityKind::Level, id: 0 })
    );
}

#[test]
fn get_levels() {
    let xp_requirements: Vec<i64> = vec![10_000, 20_000, 40_000, 80_000];
    let db = Database::create_in_memory(xp_requirements.clone()).unwrap();
    let all_levels = Level::all_levels(&db);
    assert_eq!(all_levels.len(), xp_requirements.len());
    for (index, (xp, level)) in xp_requirements.into_iter().zip(all_levels.into_iter()).enumerate() {
        assert_eq!(level.xp_requirement, xp, "XP requirement mismatch for level {index}");
        assert_eq!(level.id, LevelId(index as i64 + 1));
    }
}
