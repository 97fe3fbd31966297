use noplacelike::registry::ClipboardState;

fn sorted(mut ids: Vec<usize>) -> Vec<usize> {
    ids.sort();
    ids
}

#[test]
fn new_registry_holds_the_initial_text_and_no_session() {
    let registry = ClipboardState::new(String::from("start"));
    assert_eq!(registry.get_current_content(), "start");
    assert_eq!(registry.client_count(), 0);
    assert!(!registry.is_registered(1));
}

#[test]
fn update_then_read_returns_the_update() {
    let mut registry = ClipboardState::new(String::from("start"));
    registry.update_content("hello");
    assert_eq!(registry.get_current_content(), "hello");
    registry.update_content("");
    assert_eq!(registry.get_current_content(), "");
    registry.update_content("grüße 日本語 🎉");
    assert_eq!(registry.get_current_content(), "grüße 日本語 🎉");
}

#[test]
fn last_writer_wins() {
    let mut registry = ClipboardState::new(String::new());
    registry.update_content("first");
    registry.update_content("second");
    assert_eq!(registry.get_current_content(), "second");
}

#[test]
fn membership_changes_leave_the_text_alone() {
    let mut registry = ClipboardState::new(String::new());
    registry.update_content("kept");
    registry.register_client(4);
    registry.unregister_client(4);
    registry.register_client(5);
    assert_eq!(registry.get_current_content(), "kept");
}

#[test]
fn register_returns_the_current_text() {
    let mut registry = ClipboardState::new(String::from("x"));
    assert_eq!(registry.register_client(1), "x");
    registry.update_content("y");
    assert_eq!(registry.register_client(2), "y");
}

#[test]
fn set_size_is_the_number_of_net_registered_ids() {
    let mut registry = ClipboardState::new(String::new());
    registry.register_client(1);
    registry.register_client(2);
    registry.register_client(3);
    assert_eq!(registry.client_count(), 3);
    registry.unregister_client(2);
    assert_eq!(registry.client_count(), 2);
    registry.register_client(2);
    registry.unregister_client(1);
    registry.unregister_client(3);
    assert_eq!(registry.client_count(), 1);
    assert!(registry.is_registered(2));
    assert!(!registry.is_registered(1));
    assert!(!registry.is_registered(3));
}

#[test]
fn registering_twice_is_registering_once() {
    let mut registry = ClipboardState::new(String::new());
    registry.register_client(7);
    registry.register_client(7);
    assert_eq!(registry.client_count(), 1);
    registry.unregister_client(7);
    assert_eq!(registry.client_count(), 0);
    assert!(!registry.is_registered(7));
}

#[test]
fn unregistering_a_stranger_changes_nothing() {
    let mut registry = ClipboardState::new(String::new());
    registry.register_client(1);
    registry.unregister_client(9);
    assert_eq!(registry.client_count(), 1);
    assert!(registry.is_registered(1));
}

#[test]
fn update_returns_the_registered_sessions_once_each() {
    let mut registry = ClipboardState::new(String::new());
    assert_eq!(registry.update_content("a"), Vec::<usize>::new());
    registry.register_client(3);
    registry.register_client(1);
    registry.register_client(2);
    registry.register_client(3);
    assert_eq!(sorted(registry.update_content("b")), vec![1, 2, 3]);
    registry.unregister_client(1);
    assert_eq!(sorted(registry.update_content("c")), vec![2, 3]);
    assert_eq!(registry.client_count(), 2);
}
