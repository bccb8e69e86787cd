use rtd::store::{collect_todos, initialized, is_memory_location, opened};
use rtd::{DriverFault, FaultKind, StoreError, Todo};

fn fault(kind: FaultKind, message: &str) -> DriverFault {
    DriverFault { kind, message: message.to_string() }
}

#[test]
fn only_the_exact_sentinel_is_the_memory_location() {
    assert!(is_memory_location(":memory:"));
    assert!(!is_memory_location(""));
    assert!(!is_memory_location(":memory"));
    assert!(!is_memory_location("memory:"));
    assert!(!is_memory_location(":memory: "));
    assert!(!is_memory_location(" :memory:"));
    assert!(!is_memory_location(":MEMORY:"));
    assert!(!is_memory_location("/:memory:"));
    assert!(!is_memory_location("db.sqlite3"));
}

#[test]
fn unique_constraint_code_is_the_one_of_sqlite() {
    assert_eq!(rtd::error::UNIQUE_CONSTRAINT_CODE, 2067);
    assert_eq!(rtd::error::UNIQUE_CONSTRAINT_CODE, rusqlite::ffi::SQLITE_CONSTRAINT_UNIQUE);
}

#[test]
fn insert_faults_become_unique_violation_or_storage() {
    let unique = StoreError::from_insert_fault(fault(FaultKind::Engine { extended_code: 2067 }, "u"));
    assert!(matches!(unique, StoreError::UniqueConstraintViolation));
    let primary = StoreError::from_insert_fault(fault(FaultKind::Engine { extended_code: 1555 }, "p"));
    assert!(matches!(primary, StoreError::Storage { message } if message == "p"));
    let plain = StoreError::from_insert_fault(fault(FaultKind::Engine { extended_code: 19 }, "c"));
    assert!(matches!(plain, StoreError::Storage { message } if message == "c"));
    let none = StoreError::from_insert_fault(fault(FaultKind::NoRows, "n"));
    assert!(matches!(none, StoreError::Storage { message } if message == "n"));
    let other = StoreError::from_insert_fault(fault(FaultKind::Other, "o"));
    assert!(matches!(other, StoreError::Storage { message } if message == "o"));
}

#[test]
fn lookup_faults_become_not_found_or_storage() {
    let none = StoreError::from_lookup_fault(fault(FaultKind::NoRows, "n"));
    assert!(matches!(none, StoreError::NotFound));
    let unique = StoreError::from_lookup_fault(fault(FaultKind::Engine { extended_code: 2067 }, "u"));
    assert!(matches!(unique, StoreError::Storage { message } if message == "u"));
    let other = StoreError::from_lookup_fault(fault(FaultKind::Other, "o"));
    assert!(matches!(other, StoreError::Storage { message } if message == "o"));
}

#[test]
fn other_faults_become_storage() {
    let none = StoreError::from_fault(fault(FaultKind::NoRows, "n"));
    assert!(matches!(none, StoreError::Storage { message } if message == "n"));
    let unique = StoreError::from_fault(fault(FaultKind::Engine { extended_code: 2067 }, "u"));
    assert!(matches!(unique, StoreError::Storage { message } if message == "u"));
    let other = StoreError::from_fault(fault(FaultKind::Other, "o"));
    assert!(matches!(other, StoreError::Storage { message } if message == "o"));
}

#[test]
fn opened_keeps_the_value_or_reports_storage() {
    assert!(matches!(opened::<u8>(Ok(5)), Ok(5)));
    let failed = opened::<u8>(Err(fault(FaultKind::Engine { extended_code: 14 }, "cannot open")));
    assert!(matches!(failed, Err(StoreError::Storage { message }) if message == "cannot open"));
}

#[test]
fn initialized_drops_the_count() {
    assert!(matches!(initialized(Ok(0)), Ok(())));
    assert!(matches!(initialized(Ok(3)), Ok(())));
    let failed = initialized(Err(fault(FaultKind::Other, "no")));
    assert!(matches!(failed, Err(StoreError::Storage { message }) if message == "no"));
}

#[test]
fn saved_sets_the_identifier_and_keeps_the_rest() {
    let saved = Todo::new("t", "d", true).saved(Ok(17)).unwrap();
    assert_eq!(saved.id, 17);
    assert_eq!(saved.title, "t");
    assert_eq!(saved.description, "d");
    assert_eq!(saved.complete, true);
    let refused = Todo::new("t", "d", true)
        .saved(Err(fault(FaultKind::Engine { extended_code: 2067 }, "UNIQUE constraint failed")));
    assert!(matches!(refused, Err(StoreError::UniqueConstraintViolation)));
    let failed = Todo::new("t", "d", true).saved(Err(fault(FaultKind::Other, "x")));
    assert!(matches!(failed, Err(StoreError::Storage { message }) if message == "x"));
}

#[test]
fn found_builds_the_record_of_the_row() {
    let found = Todo::found(Ok((4, "t".to_string(), "d".to_string(), false))).unwrap();
    assert_eq!(found.id, 4);
    assert_eq!(found.title, "t");
    assert_eq!(found.description, "d");
    assert_eq!(found.complete, false);
    assert!(matches!(Todo::found(Err(fault(FaultKind::NoRows, "none"))), Err(StoreError::NotFound)));
    let failed = Todo::found(Err(fault(FaultKind::Other, "x")));
    assert!(matches!(failed, Err(StoreError::Storage { message }) if message == "x"));
}

#[test]
fn saved_then_found_agree() {
    let saved = Todo::new("round", "trip", true).saved(Ok(12)).unwrap();
    let found =
        Todo::found(Ok((saved.id, saved.title.clone(), saved.description.clone(), saved.complete)))
            .unwrap();
    assert_eq!(found, saved);
    assert_eq!(found.complete, saved.complete);
}

#[test]
fn collect_todos_keeps_count_and_order() {
    assert_eq!(collect_todos(Vec::new()).unwrap().len(), 0);
    let rows = vec![
        Ok((2, "b".to_string(), "y".to_string(), true)),
        Ok((1, "a".to_string(), "x".to_string(), false)),
        Ok((3, "c".to_string(), "z".to_string(), false)),
    ];
    let todos = collect_todos(rows).unwrap();
    assert_eq!(todos.len(), 3);
    assert_eq!(todos[0].id, 2);
    assert_eq!(todos[0].title, "b");
    assert_eq!(todos[0].description, "y");
    assert_eq!(todos[0].complete, true);
    assert_eq!(todos[1].id, 1);
    assert_eq!(todos[2].id, 3);
    assert_eq!(todos[2].title, "c");
}

#[test]
fn collect_todos_reports_the_first_failure() {
    let rows = vec![
        Ok((1, "a".to_string(), "x".to_string(), false)),
        Err(fault(FaultKind::Other, "first")),
        Ok((3, "c".to_string(), "z".to_string(), false)),
        Err(fault(FaultKind::NoRows, "second")),
    ];
    let failed = collect_todos(rows);
    assert!(matches!(failed, Err(StoreError::Storage { message }) if message == "first"));
    let only = collect_todos(vec![Err(fault(FaultKind::Engine { extended_code: 2067 }, "u"))]);
    assert!(matches!(only, Err(StoreError::Storage { message }) if message == "u"));
}
