use vulkthing::input::{Click, ElementState, InputState, Key, KeyEvent};

fn key(c: &str, state: ElementState) -> KeyEvent {
    KeyEvent { logical_key: Key::Character(c.to_string()), state }
}

#[test]
fn new_input_state_is_idle() {
    let s = InputState::new();
    assert_eq!(s.movement_horizontal(), 0);
    assert_eq!(s.movement_depth(), 0);
    assert_eq!(s.movement_jumps(), 0);
    assert!(!s.movement_sprint());
    assert!(s.camera_follows_mouse());
    assert_eq!(s.camera_roll(), 0);
}

#[test]
fn movement_keys_set_directions() {
    let mut s = InputState::new();
    s.apply_keyboard(key("w", ElementState::Pressed));
    s.apply_keyboard(key("d", ElementState::Pressed));
    assert_eq!(s.movement_depth(), 1);
    assert_eq!(s.movement_horizontal(), 1);
    s.apply_keyboard(key("a", ElementState::Pressed));
    assert_eq!(s.movement_horizontal(), 0);
    s.apply_keyboard(key("d", ElementState::Released));
    assert_eq!(s.movement_horizontal(), -1);
    s.apply_keyboard(key("s", ElementState::Pressed));
    s.apply_keyboard(key("w", ElementState::Released));
    assert_eq!(s.movement_depth(), -1);
}

#[test]
fn roll_and_camera_lock() {
    let mut s = InputState::new();
    s.apply_keyboard(key("e", ElementState::Pressed));
    assert_eq!(s.camera_roll(), 1);
    s.apply_keyboard(key("q", ElementState::Pressed));
    assert_eq!(s.camera_roll(), 0);
    s.apply_keyboard(key("e", ElementState::Released));
    assert_eq!(s.camera_roll(), -1);
    s.apply_keyboard(key("f", ElementState::Pressed));
    assert!(!s.camera_follows_mouse());
    s.apply_keyboard(key("f", ElementState::Released));
    assert!(s.camera_follows_mouse());
}

#[test]
fn other_keys_change_nothing() {
    let mut s = InputState::new();
    s.apply_keyboard(key("x", ElementState::Pressed));
    s.apply_keyboard(key("W", ElementState::Pressed));
    s.apply_keyboard(KeyEvent { logical_key: Key::Other, state: ElementState::Pressed });
    assert_eq!(s, InputState::new());
}

#[test]
fn jump_counts_presses_once_while_held() {
    let mut s = InputState::new();
    let space = |state| KeyEvent { logical_key: Key::Space, state };
    s.apply_keyboard(space(ElementState::Pressed));
    s.apply_keyboard(space(ElementState::Pressed));
    assert_eq!(s.movement_jumps(), 1);
    s.apply_keyboard(space(ElementState::Released));
    s.apply_keyboard(space(ElementState::Pressed));
    assert_eq!(s.movement_jumps(), 2);
    s.reset_after_frame();
    assert_eq!(s.movement_jumps(), 0);
    assert!(s.jump.pressed);
}

#[test]
fn shift_sprints() {
    let mut s = InputState::new();
    s.apply_keyboard(KeyEvent { logical_key: Key::Shift, state: ElementState::Pressed });
    assert!(s.movement_sprint());
    s.apply_keyboard(KeyEvent { logical_key: Key::Shift, state: ElementState::Released });
    assert!(!s.movement_sprint());
}

#[test]
fn click_apply_follows_press_and_release() {
    let mut c = Click { queued_count: 5, pressed: false };
    c.apply(ElementState::Released);
    assert_eq!(c, Click { queued_count: 5, pressed: false });
    c.apply(ElementState::Pressed);
    assert_eq!(c, Click { queued_count: 6, pressed: true });
    c.apply(ElementState::Pressed);
    assert_eq!(c, Click { queued_count: 6, pressed: true });
    c.apply(ElementState::Released);
    assert_eq!(c, Click { queued_count: 6, pressed: false });
}
