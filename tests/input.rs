use moon::input::{Key, KEY_COUNT};
use moon::{InputManager, Vec2};

#[test]
fn letters_map_in_either_case() {
    assert_eq!(Key::from_label("a"), Key::A);
    assert_eq!(Key::from_label("A"), Key::A);
    assert_eq!(Key::from_label("d"), Key::D);
    assert_eq!(Key::from_label("W"), Key::W);
    assert_eq!(Key::from_label("z"), Key::Z);
    assert_eq!(Key::from_label("Z"), Key::Z);
}

#[test]
fn digits_map_to_number_keys() {
    assert_eq!(Key::from_label("0"), Key::Num0);
    assert_eq!(Key::from_label("5"), Key::Num5);
    assert_eq!(Key::from_label("6"), Key::Num6);
    assert_eq!(Key::from_label("9"), Key::Num9);
}

#[test]
fn space_label_in_any_case() {
    assert_eq!(Key::from_label("Space"), Key::Space);
    assert_eq!(Key::from_label("space"), Key::Space);
    assert_eq!(Key::from_label("SPACE"), Key::Space);
}

#[test]
fn unrecognized_labels_are_unknown() {
    for label in ["", "Enter", "ab", "Spac", "Spaces", "!", "é", " ", "10", "ArrowLeft"] {
        assert_eq!(Key::from_label(label), Key::Unknown, "label {:?}", label);
    }
}

#[test]
fn from_str_matches_from_label() {
    assert_eq!(Key::from("q"), Key::Q);
    assert_eq!(Key::from("Shift"), Key::Unknown);
}

#[test]
fn codes_round_trip() {
    assert_eq!(KEY_COUNT, 38);
    assert_eq!(Key::Space.code(), 0);
    assert_eq!(Key::A.code(), 1);
    assert_eq!(Key::Num0.code(), 27);
    assert_eq!(Key::Unknown.code(), 37);
    for c in 0..KEY_COUNT {
        assert_eq!(Key::from_code(c).code(), c);
    }
    assert_eq!(Key::from_code(200), Key::Unknown);
}

#[test]
fn new_manager_has_nothing_pressed() {
    let input = InputManager::new();
    assert!(!input.get_key_state(Key::A));
    assert!(!input.get_key_state(Key::Unknown));
    let input = InputManager::default();
    assert!(!input.get_key_state(Key::Space));
}

#[test]
fn key_down_then_query_is_true() {
    let mut input = InputManager::new();
    input.key_down(Key::W);
    assert!(input.get_key_state(Key::W));
    input.key_down(Key::W);
    assert!(input.get_key_state(Key::W));
    assert!(!input.get_key_state(Key::S));
}

#[test]
fn key_up_then_query_is_false() {
    let mut input = InputManager::new();
    input.key_up(Key::W);
    assert!(!input.get_key_state(Key::W));
    input.key_down(Key::W);
    input.key_down(Key::S);
    input.key_up(Key::W);
    assert!(!input.get_key_state(Key::W));
    assert!(input.get_key_state(Key::S));
    input.key_up(Key::W);
    assert!(!input.get_key_state(Key::W));
}

#[test]
fn consume_reports_and_clears() {
    let mut input = InputManager::new();
    input.key_down(Key::Space);
    assert!(input.consume_key_state(Key::Space));
    assert!(!input.get_key_state(Key::Space));
    assert!(!input.consume_key_state(Key::Space));
    assert!(!input.get_key_state(Key::Space));
}

#[test]
fn set_key_state_by_label() {
    let mut input = InputManager::new();
    input.set_key_state("d", true);
    assert!(input.get_key_state(Key::D));
    input.set_key_state("D", false);
    assert!(!input.get_key_state(Key::D));
}

#[test]
fn unknown_label_presses_unknown_key() {
    let mut input = InputManager::new();
    input.set_key_state("Escape", true);
    assert!(input.get_key_state(Key::Unknown));
    input.set_key_state("Tab", false);
    assert!(!input.get_key_state(Key::Unknown));
}

#[test]
fn mouse_position_is_overwritten() {
    let mut input = InputManager::new();
    assert_eq!(input.mouse_position(), Vec2::new(0, 0));
    input.set_mouse_position(120, -7);
    assert_eq!(input.mouse_position(), Vec2::new(120, -7));
    input.set_mouse_position(3, 4);
    assert_eq!(input.mouse_position(), Vec2::new(3, 4));
}
