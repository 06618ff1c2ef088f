use screen_capture::keys::{Action, Key, KeyBindings};

fn letter(c: char) -> Key {
    Key::from_code(c as u32)
}

#[test]
fn default_bindings_are_the_usual_letters() {
    let b = KeyBindings::new();
    assert_eq!(b.resolve(Action::Save), letter('S'));
    assert_eq!(b.resolve(Action::Cancel), letter('Z'));
    assert_eq!(b.resolve(Action::New), letter('N'));
    assert_eq!(b.resolve(Action::Crop), letter('X'));
    assert_eq!(b.resolve(Action::Fullscreen), letter('F'));
    assert_eq!(b.resolve(Action::Clipboard), letter('C'));
    assert_eq!(KeyBindings::default(), b);
}

#[test]
fn rebind_to_a_key_of_another_action_is_refused() {
    let mut b = KeyBindings::new();
    let crop_key = b.resolve(Action::Crop);
    assert!(!b.rebind(Action::Save, crop_key));
    assert_eq!(b.resolve(Action::Save), letter('S'));
    assert_eq!(b, KeyBindings::new());
}

#[test]
fn rebind_to_the_clipboard_key_is_refused() {
    let mut b = KeyBindings::new();
    assert!(b.is_key_assigned(letter('C')));
    assert!(!b.rebind(Action::Save, letter('C')));
    assert_eq!(b.resolve(Action::Save), letter('S'));
}

#[test]
fn rebind_to_a_free_key_moves_only_that_action() {
    let mut b = KeyBindings::new();
    assert!(!b.is_key_assigned(letter('Q')));
    assert!(b.rebind(Action::Save, letter('Q')));
    assert_eq!(b.resolve(Action::Save), letter('Q'));
    assert_eq!(b.resolve(Action::Crop), letter('X'));
    assert!(!b.is_key_assigned(letter('S')));
    assert!(b.is_key_assigned(letter('Q')));
}

#[test]
fn action_for_needs_a_fresh_ctrl_press() {
    let b = KeyBindings::new();
    assert_eq!(b.action_for(letter('S'), true, false, true), Some(Action::Save));
    assert_eq!(b.action_for(letter('X'), true, false, true), Some(Action::Crop));
    assert_eq!(b.action_for(letter('S'), true, true, true), None);
    assert_eq!(b.action_for(letter('S'), false, false, true), None);
    assert_eq!(b.action_for(letter('S'), true, false, false), None);
    assert_eq!(b.action_for(letter('Q'), true, false, true), None);
}
