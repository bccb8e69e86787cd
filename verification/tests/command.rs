use rtd::command::{creation_report, draft, listing, lookup_report, not_found_message, plan};
use rtd::{Action, Command, StoreError, Todo};

#[test]
fn new_plans_a_creation() {
    assert!(matches!(plan(Command::New { title: None }), Action::Create { title: None }));
    let given = plan(Command::New { title: Some("x".to_string()) });
    assert!(matches!(given, Action::Create { title: Some(title) } if title == "x"));
}

#[test]
fn get_plans_one_or_all() {
    assert!(matches!(plan(Command::Get { id: Some(3), all: false }), Action::ShowOne { id: 3 }));
    assert!(matches!(plan(Command::Get { id: Some(-3), all: true }), Action::ShowOne { id: -3 }));
    assert!(matches!(plan(Command::Get { id: None, all: true }), Action::ShowAll));
    assert!(matches!(plan(Command::Get { id: None, all: false }), Action::ShowAll));
}

#[test]
fn draft_trims_what_was_typed() {
    let todo = draft("  Buy milk \n", "\t2% milk, 1 gallon\r\n");
    assert_eq!(todo.id, 0);
    assert_eq!(todo.title, "Buy milk");
    assert_eq!(todo.description, "2% milk, 1 gallon");
    assert_eq!(todo.complete, false);
    let inner = draft("a  b", " \n ");
    assert_eq!(inner.title, "a  b");
    assert_eq!(inner.description, "");
}

#[test]
fn creation_report_frames_the_task() {
    let todo = Todo { id: 1, title: "T".to_string(), description: "D".to_string(), complete: false };
    let expected = "Created new todo:\n\
                    ===========================================\n\
                    T (#1 - not completed):\n    Description: \"D\"\n\
                    ===========================================";
    assert_eq!(creation_report(&todo.display_text()), expected);
    assert_eq!(rtd::command::RULE.len(), 43);
}

#[test]
fn not_found_message_names_the_identifier() {
    assert_eq!(not_found_message(5), "Could not find any todo with id: 5");
    assert_eq!(not_found_message(-12), "Could not find any todo with id: -12");
    assert_eq!(not_found_message(0), "Could not find any todo with id: 0");
}

#[test]
fn lookup_report_prints_the_task_or_the_message() {
    let todo = Todo { id: 2, title: "T".to_string(), description: "D".to_string(), complete: true };
    assert_eq!(lookup_report(2, &Ok(todo)), "T (#2 - completed):\n    Description: \"D\"");
    assert_eq!(lookup_report(8, &Err(StoreError::NotFound)), "Could not find any todo with id: 8");
    assert_eq!(
        lookup_report(9, &Err(StoreError::Storage { message: "locked".to_string() })),
        "Could not find any todo with id: 9"
    );
    assert_eq!(
        lookup_report(10, &Err(StoreError::UniqueConstraintViolation)),
        "Could not find any todo with id: 10"
    );
}

#[test]
fn listing_prints_every_task_in_order() {
    assert_eq!(listing(&Vec::new()).len(), 0);
    let todos = vec![
        Todo { id: 2, title: "b".to_string(), description: "y".to_string(), complete: true },
        Todo { id: 1, title: "a".to_string(), description: "x".to_string(), complete: false },
    ];
    let lines = listing(&todos);
    assert_eq!(lines.len(), 2);
    assert_eq!(lines[0], "b (#2 - completed):\n    Description: \"y\"");
    assert_eq!(lines[1], "a (#1 - not completed):\n    Description: \"x\"");
}
