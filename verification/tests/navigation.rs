use focus_core::{FocusChange, FocusEntry, FocusManager, FocusTransition, WidgetId};

fn id(n: u64) -> WidgetId {
    WidgetId(n)
}

/// Two scopes with three and two widgets, registered interleaved, and one
/// widget outside every scope.
fn two_scopes() -> FocusManager {
    let mut manager = FocusManager::new();
    manager.register(id(1), Some(id(100)));
    manager.register(id(2), Some(id(200)));
    manager.register(id(3), Some(id(100)));
    manager.register(id(4), None);
    manager.register(id(5), Some(id(200)));
    manager.register(id(6), Some(id(100)));
    manager
}

#[test]
fn new_manager_is_empty() {
    let manager = FocusManager::new();
    assert!(manager.chain.is_empty());
    assert_eq!(manager.focused(), None);
    assert_eq!(manager.request, None);
    assert_eq!(manager.next_target(), None);
    assert_eq!(manager.prev_target(), None);
}

#[test]
fn register_keeps_the_order_of_arrival() {
    let manager = two_scopes();
    let widgets: Vec<u64> = manager.chain.iter().map(|e| e.widget.0).collect();
    assert_eq!(widgets, vec![1, 2, 3, 4, 5, 6]);
    assert_eq!(manager.chain[1], FocusEntry { widget: id(2), scope: Some(id(200)) });
    assert_eq!(manager.chain[3], FocusEntry { widget: id(4), scope: None });
}

#[test]
fn register_twice_keeps_the_first_entry() {
    let mut manager = two_scopes();
    manager.register(id(3), Some(id(200)));
    assert_eq!(manager.chain.len(), 6);
    assert_eq!(manager.chain[2], FocusEntry { widget: id(3), scope: Some(id(100)) });
    assert!(manager.is_registered(id(3)));
    assert!(!manager.is_registered(id(7)));
}

#[test]
fn next_stays_in_the_scope_of_the_focused_widget() {
    let mut manager = two_scopes();
    manager.focused = Some(id(1));
    assert_eq!(manager.next_target(), Some(id(3)));
    manager.focused = Some(id(3));
    assert_eq!(manager.next_target(), Some(id(6)));
    manager.focused = Some(id(2));
    assert_eq!(manager.next_target(), Some(id(5)));
}

#[test]
fn previous_stays_in_the_scope_of_the_focused_widget() {
    let mut manager = two_scopes();
    manager.focused = Some(id(6));
    assert_eq!(manager.prev_target(), Some(id(3)));
    manager.focused = Some(id(3));
    assert_eq!(manager.prev_target(), Some(id(1)));
    manager.focused = Some(id(5));
    assert_eq!(manager.prev_target(), Some(id(2)));
}

#[test]
fn next_from_the_last_of_a_scope_yields_the_first() {
    let mut manager = two_scopes();
    manager.focused = Some(id(6));
    assert_eq!(manager.next_target(), Some(id(1)));
    manager.focused = Some(id(5));
    assert_eq!(manager.next_target(), Some(id(2)));
}

#[test]
fn previous_from_the_first_of_a_scope_yields_the_last() {
    let mut manager = two_scopes();
    manager.focused = Some(id(1));
    assert_eq!(manager.prev_target(), Some(id(6)));
    manager.focused = Some(id(2));
    assert_eq!(manager.prev_target(), Some(id(5)));
}

#[test]
fn a_widget_alone_in_its_scope_keeps_the_focus() {
    let mut manager = two_scopes();
    manager.focused = Some(id(4));
    assert_eq!(manager.next_target(), Some(id(4)));
    assert_eq!(manager.prev_target(), Some(id(4)));
}

#[test]
fn navigation_never_leaves_the_scope() {
    let manager = two_scopes();
    for entry in manager.chain.clone() {
        let mut at = manager.clone();
        at.focused = Some(entry.widget);
        for target in [at.next_target(), at.prev_target()] {
            let target = target.expect("a registered widget has a neighbour");
            let landed = manager.chain.iter().find(|e| e.widget == target).unwrap();
            assert_eq!(landed.scope, entry.scope);
        }
    }
}

#[test]
fn previous_undoes_next() {
    let manager = two_scopes();
    for entry in manager.chain.clone() {
        let mut at = manager.clone();
        at.focused = Some(entry.widget);
        at.focused = at.next_target();
        assert_eq!(at.prev_target(), Some(entry.widget));
    }
}

#[test]
fn without_a_focused_widget_next_is_the_first_and_previous_the_last() {
    let mut manager = two_scopes();
    assert_eq!(manager.next_target(), Some(id(1)));
    assert_eq!(manager.prev_target(), Some(id(6)));
    manager.focused = Some(id(77));
    assert_eq!(manager.next_target(), Some(id(1)));
    assert_eq!(manager.prev_target(), Some(id(6)));
}

#[test]
fn the_latest_request_replaces_the_pending_one() {
    let mut manager = two_scopes();
    manager.request(FocusChange::Focus(id(1)));
    manager.request(FocusChange::Focus(id(5)));
    assert_eq!(manager.request, Some(FocusChange::Focus(id(5))));
    let moved = manager.resolve();
    assert_eq!(moved, FocusTransition { lost: None, gained: Some(id(5)) });
    assert_eq!(manager.focused(), Some(id(5)));
    assert_eq!(manager.request, None);
}

#[test]
fn resolve_without_a_request_changes_nothing() {
    let mut manager = two_scopes();
    manager.focused = Some(id(3));
    let moved = manager.resolve();
    assert_eq!(moved, FocusTransition { lost: None, gained: None });
    assert_eq!(manager.focused(), Some(id(3)));
}

#[test]
fn resolve_next_and_previous_move_the_focus() {
    let mut manager = two_scopes();
    manager.focused = Some(id(3));
    manager.request(FocusChange::Next);
    assert_eq!(manager.resolve(), FocusTransition { lost: Some(id(3)), gained: Some(id(6)) });
    manager.request(FocusChange::Next);
    assert_eq!(manager.resolve(), FocusTransition { lost: Some(id(6)), gained: Some(id(1)) });
    manager.request(FocusChange::Previous);
    assert_eq!(manager.resolve(), FocusTransition { lost: Some(id(1)), gained: Some(id(6)) });
    assert_eq!(manager.focused(), Some(id(6)));
}

#[test]
fn resolve_to_the_same_widget_tells_nobody() {
    let mut manager = two_scopes();
    manager.focused = Some(id(4));
    manager.request(FocusChange::Next);
    assert_eq!(manager.resolve(), FocusTransition { lost: None, gained: None });
    manager.request(FocusChange::Focus(id(4)));
    assert_eq!(manager.resolve(), FocusTransition { lost: None, gained: None });
    assert_eq!(manager.focused(), Some(id(4)));
}

#[test]
fn next_on_an_empty_chain_clears_the_focus() {
    let mut manager = FocusManager::new();
    manager.focused = Some(id(9));
    manager.request(FocusChange::Next);
    assert_eq!(manager.resolve(), FocusTransition { lost: Some(id(9)), gained: None });
    assert_eq!(manager.focused(), None);
}
