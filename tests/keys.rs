use strafe::input::{Button, KeyBinds, KeyCode, KeyState};

fn keys(w: bool, a: bool, s: bool, d: bool, f: bool, space: bool) -> KeyState {
    KeyState { key_w: w, key_a: a, key_s: s, key_d: d, key_f: f, space }
}

#[test]
fn default_key_state_holds_nothing() {
    assert_eq!(KeyState::default(), keys(false, false, false, false, false, false));
}

#[test]
fn not_inverts_every_key() {
    let k = keys(true, false, true, false, true, false);
    assert_eq!(!k, keys(false, true, false, true, false, true));
}

#[test]
fn and_keeps_keys_held_in_both() {
    let a = keys(true, true, false, false, true, false);
    let b = keys(true, false, true, false, true, true);
    assert_eq!(a & b, keys(true, false, false, false, true, false));
}

#[test]
fn or_keeps_keys_held_in_either() {
    let a = keys(true, true, false, false, false, false);
    let b = keys(false, false, false, true, false, true);
    assert_eq!(a | b, keys(true, true, false, true, false, true));
}

#[test]
fn pressed_reports_rising_edges() {
    let previous = keys(true, true, false, false, false, false);
    let now = keys(true, false, true, false, false, true);
    assert_eq!(now.pressed(previous), keys(false, false, true, false, false, true));
}

#[test]
fn released_reports_falling_edges() {
    let previous = keys(true, true, false, false, false, false);
    let now = keys(true, false, true, false, false, true);
    assert_eq!(now.released(previous), keys(false, true, false, false, false, false));
}

#[test]
fn unchanged_keys_have_no_edges() {
    let k = keys(true, false, false, true, false, true);
    assert_eq!(k.pressed(k), KeyState::default());
    assert_eq!(k.released(k), KeyState::default());
}

#[test]
fn side_strafe_is_left_or_right_alone() {
    assert!(keys(false, true, false, false, false, false).is_side_strafe());
    assert!(keys(false, false, false, true, false, true).is_side_strafe());
    assert!(keys(false, true, false, true, false, false).is_side_strafe());
    assert!(!keys(true, true, false, false, false, false).is_side_strafe());
    assert!(!keys(false, false, true, true, false, false).is_side_strafe());
    assert!(!keys(false, false, false, false, false, false).is_side_strafe());
}

#[test]
fn overridden_takes_movement_and_jump_from_bot() {
    let player = keys(true, false, false, false, true, false);
    let bot = keys(false, true, false, true, false, true);
    assert_eq!(player.overridden(bot, false, false), player);
    assert_eq!(player.overridden(bot, true, false), keys(false, true, false, true, true, false));
    assert_eq!(player.overridden(bot, false, true), keys(true, false, false, false, true, true));
    assert_eq!(player.overridden(bot, true, true), keys(false, true, false, true, true, true));
}

#[test]
fn default_binds_name_their_keys() {
    let binds = KeyBinds::default();
    assert_eq!(binds.button(KeyCode::KeyW).label(), "KeyW");
    assert_eq!(binds.button(KeyCode::KeyA).label(), "KeyA");
    assert_eq!(binds.button(KeyCode::KeyS).label(), "KeyS");
    assert_eq!(binds.button(KeyCode::KeyD).label(), "KeyD");
    assert_eq!(binds.button(KeyCode::KeyF).label(), "KeyF");
    assert_eq!(binds.button(KeyCode::Space).label(), "Space");
}

#[test]
fn rebind_changes_only_the_target() {
    let mut binds = KeyBinds::default();
    binds.rebind(KeyCode::Space, Button::Mouse(2));
    assert!(*binds.button(KeyCode::Space) == Button::Mouse(2));
    assert!(*binds.button(KeyCode::KeyW) == Button::Key("KeyW".to_string()));
    assert!(*binds.button(KeyCode::KeyF) == Button::Key("KeyF".to_string()));
}

#[test]
fn button_labels() {
    assert_eq!(Button::Key("KeyQ".to_string()).label(), "KeyQ");
    assert_eq!(Button::Mouse(0).label(), "Mouse0");
    assert_eq!(Button::Mouse(10).label(), "Mouse10");
    assert_eq!(Button::Mouse(1203).label(), "Mouse1203");
    assert_eq!(Button::Mouse(u64::MAX).label(), "Mouse18446744073709551615");
}

#[test]
fn button_equality() {
    assert!(Button::Key("KeyW".to_string()) == Button::Key("KeyW".to_string()));
    assert!(Button::Key("KeyW".to_string()) != Button::Key("KeyA".to_string()));
    assert!(Button::Mouse(1) == Button::Mouse(1));
    assert!(Button::Mouse(1) != Button::Mouse(3));
    assert!(Button::Mouse(0) != Button::Key("Mouse0".to_string()));
}

#[test]
fn set_mapped_follows_bindings() {
    let binds = KeyBinds::default();
    let mut state = KeyState::default();
    state.set_mapped(&binds, Button::Key("KeyD".to_string()), true);
    assert_eq!(state, keys(false, false, false, true, false, false));
    state.set_mapped(&binds, Button::Key("Space".to_string()), true);
    assert_eq!(state, keys(false, false, false, true, false, true));
    state.set_mapped(&binds, Button::Key("KeyD".to_string()), false);
    assert_eq!(state, keys(false, false, false, false, false, true));
    state.set_mapped(&binds, Button::Mouse(0), true);
    assert_eq!(state, keys(false, false, false, false, false, true));
}

#[test]
fn set_mapped_sets_every_key_on_a_shared_button() {
    let mut binds = KeyBinds::default();
    binds.rebind(KeyCode::KeyW, Button::Mouse(1));
    binds.rebind(KeyCode::Space, Button::Mouse(1));
    let mut state = KeyState::default();
    state.set_mapped(&binds, Button::Mouse(1), true);
    assert_eq!(state, keys(true, false, false, false, false, true));
}
