use quad_client::keyboard::{Key, Keyboard};

#[test]
fn key_from_maps_the_fixed_table() {
    assert_eq!(Key::from("ArrowUp"), Some(Key::Up));
    assert_eq!(Key::from("ArrowDown"), Some(Key::Down));
    assert_eq!(Key::from("ArrowLeft"), Some(Key::Left));
    assert_eq!(Key::from("ArrowRight"), Some(Key::Right));
    assert_eq!(Key::from("Shift"), Some(Key::Turbo));
}

#[test]
fn key_from_rejects_unknown_names() {
    assert_eq!(Key::from("KeyA"), None);
    assert_eq!(Key::from("Escape"), None);
    assert_eq!(Key::from(""), None);
    assert_eq!(Key::from("arrowup"), None);
    assert_eq!(Key::from("ArrowUp "), None);
    assert_eq!(Key::from("Arrow"), None);
}

#[test]
fn no_events_means_not_down() {
    let kb = Keyboard::new();
    assert!(!kb.is_down(Key::Up));
    assert!(!kb.is_down(Key::Down));
    assert!(!kb.is_down(Key::Left));
    assert!(!kb.is_down(Key::Right));
    assert!(!kb.is_down(Key::Turbo));
}

#[test]
fn down_then_up_reflects_last_event() {
    let mut kb = Keyboard::new();
    kb.on_key_down("ArrowLeft");
    assert!(kb.is_down(Key::Left));
    kb.on_key_up("ArrowLeft");
    assert!(!kb.is_down(Key::Left));
}

#[test]
fn down_down_up_leaves_key_released() {
    let mut kb = Keyboard::new();
    kb.on_key_down("ArrowUp");
    kb.on_key_down("ArrowUp");
    assert!(kb.is_down(Key::Up));
    kb.on_key_up("ArrowUp");
    assert!(!kb.is_down(Key::Up));
}

#[test]
fn down_up_up_leaves_key_released() {
    let mut kb = Keyboard::new();
    kb.on_key_down("Shift");
    kb.on_key_up("Shift");
    kb.on_key_up("Shift");
    assert!(!kb.is_down(Key::Turbo));
}

#[test]
fn releasing_an_absent_key_changes_nothing() {
    let mut kb = Keyboard::new();
    kb.on_key_down("ArrowRight");
    kb.on_key_up("ArrowLeft");
    assert!(kb.is_down(Key::Right));
    assert!(!kb.is_down(Key::Left));
}

#[test]
fn keys_are_tracked_independently() {
    let mut kb = Keyboard::new();
    kb.on_key_down("ArrowLeft");
    kb.on_key_down("ArrowRight");
    kb.on_key_down("Shift");
    assert!(kb.is_down(Key::Left));
    assert!(kb.is_down(Key::Right));
    assert!(kb.is_down(Key::Turbo));
    kb.on_key_up("ArrowRight");
    assert!(kb.is_down(Key::Left));
    assert!(!kb.is_down(Key::Right));
    assert!(kb.is_down(Key::Turbo));
}

#[test]
fn unmapped_names_change_nothing() {
    let mut kb = Keyboard::new();
    kb.on_key_down("ArrowDown");
    kb.on_key_down("KeyA");
    kb.on_key_down("Escape");
    kb.on_key_up("KeyA");
    kb.on_key_up("ArrowUp ");
    assert!(kb.is_down(Key::Down));
    assert!(!kb.is_down(Key::Up));
    assert!(!kb.is_down(Key::Left));
    assert!(!kb.is_down(Key::Right));
    assert!(!kb.is_down(Key::Turbo));
}
