use token_auth::todo::{idx_default, Pings, Todo, Update};

#[test]
fn the_default_position_is_minus_one() {
    assert_eq!(idx_default(), -1);
}

#[test]
fn a_new_item_is_open_at_position_zero() {
    let todo = Todo::new(7, "alice".to_string(), "write tests".to_string());
    assert_eq!(todo.id, 7);
    assert_eq!(todo.username, "alice");
    assert_eq!(todo.text, "write tests");
    assert_eq!(todo.idx, 0);
    assert!(!todo.completed);
    assert!(!todo.cleared);
    assert!(todo.owned_by("alice"));
    assert!(!todo.owned_by("bob"));
    assert!(!todo.owned_by(""));
}

#[test]
fn an_update_changes_the_fields_it_names() {
    let todo = Todo::new(7, "alice".to_string(), "write tests".to_string());
    let todo = todo.apply(Update { text: None, completed: Some(true), cleared: None });
    assert_eq!(todo.text, "write tests");
    assert!(todo.completed);
    assert!(!todo.cleared);
    let todo = todo.apply(Update {
        text: Some("run tests".to_string()),
        completed: Some(false),
        cleared: Some(true),
    });
    assert_eq!(todo.text, "run tests");
    assert!(!todo.completed);
    assert!(todo.cleared);
    let todo = todo.apply(Update { text: None, completed: None, cleared: None });
    assert_eq!((todo.id, todo.idx), (7, 0));
    assert_eq!(todo.username, "alice");
    assert_eq!(todo.text, "run tests");
    assert!(!todo.completed);
    assert!(todo.cleared);
}

#[test]
fn pings_count_up_from_one() {
    assert_eq!(Pings::record(None), Pings { pings: 1 });
    assert_eq!(Pings::record(Some(Pings { pings: 1 })), Pings { pings: 2 });
    assert_eq!(Pings::record(Some(Pings { pings: -5 })), Pings { pings: -4 });
    assert_eq!(Pings::record(Some(Pings { pings: i64::MAX - 1 })), Pings { pings: i64::MAX });
}
