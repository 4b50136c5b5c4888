use command_bridge::oneshot::OneShot;

#[test]
fn new_cell_is_not_resolved() {
    let cell: OneShot<Option<String>> = OneShot::new();
    assert!(!cell.resolved());
}

#[test]
fn resolve_then_take_hands_the_value_over_intact() {
    let mut cell: OneShot<Option<String>> = OneShot::new();
    cell.resolve(Some("/home/user/choice.rs".to_string()));
    assert!(cell.resolved());
    assert_eq!(cell.take(), Some("/home/user/choice.rs".to_string()));
}

#[test]
fn a_cancellation_is_handed_over_like_any_value() {
    let mut cell: OneShot<Option<String>> = OneShot::new();
    cell.resolve(None);
    assert!(cell.resolved());
    assert_eq!(cell.take(), None);
}
