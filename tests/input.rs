use gc2d::keyboard::{KeyCode, KeyCodeState, Keyboard, NATIVE_A, NATIVE_LEFT, NATIVE_SPACE, NATIVE_UP};
use gc2d::mouse::{Mouse, MouseButton, MouseButtonId};

#[test]
fn key_held_three_frames_then_released() {
    let mut kb = Keyboard::new();
    let down = vec![NATIVE_A];
    let up: Vec<i32> = vec![];
    let frames = [&down, &down, &down, &up, &up];
    for (n, raw) in frames.iter().enumerate() {
        let frame = n + 1;
        kb.update(raw);
        let pressed = kb.get_keys_just_pressed();
        let released = kb.get_keys_just_released();
        assert_eq!(pressed.contains(&KeyCode::A), frame == 1, "frame {}", frame);
        assert_eq!(released.contains(&KeyCode::A), frame == 4, "frame {}", frame);
        assert_eq!(kb.is_down(KeyCode::A), frame <= 3, "frame {}", frame);
    }
}

#[test]
fn tap_between_two_frames_gives_both_edges() {
    let mut kb = Keyboard::new();
    kb.update(&vec![NATIVE_SPACE]);
    assert_eq!(kb.get_keys_just_pressed(), vec![KeyCode::Space]);
    assert!(kb.get_keys_just_released().is_empty());
    kb.update(&vec![]);
    assert!(kb.get_keys_just_pressed().is_empty());
    assert_eq!(kb.get_keys_just_released(), vec![KeyCode::Space]);
    kb.update(&vec![]);
    assert!(kb.get_keys_just_released().is_empty());
}

#[test]
fn two_phase_refresh_matches_update() {
    let mut a = Keyboard::new();
    let mut b = Keyboard::new();
    let raw = vec![NATIVE_UP, NATIVE_LEFT];
    a.update(&raw);
    b.begin_frame();
    b.apply_raw_state(&raw);
    for k in [KeyCode::Up, KeyCode::Left, KeyCode::A] {
        assert_eq!(a.is_down(k), b.is_down(k));
    }
    assert!(a.is_down(KeyCode::Up));
    assert!(a.is_down(KeyCode::Left));
    assert!(!a.is_down(KeyCode::A));
    let mut p = a.get_keys_just_pressed();
    p.sort_by_key(|k| k.index());
    assert_eq!(p, vec![KeyCode::Up, KeyCode::Left]);
}

#[test]
fn unmapped_native_codes_are_ignored() {
    let mut kb = Keyboard::new();
    kb.update(&vec![12345, -1, 99]);
    assert!(kb.get_keys_just_pressed().is_empty());
    for i in 0..11 {
        assert!(!kb.is_down(KeyCode::from_index(i)));
    }
}

#[test]
fn duplicate_codes_press_once() {
    let mut kb = Keyboard::new();
    kb.update(&vec![NATIVE_A, NATIVE_A]);
    assert_eq!(kb.get_keys_just_pressed(), vec![KeyCode::A]);
}

#[test]
fn native_table() {
    assert_eq!(KeyCode::from_native(97), Some(KeyCode::A));
    assert_eq!(KeyCode::from_native(122), Some(KeyCode::Z));
    assert_eq!(KeyCode::from_native(32), Some(KeyCode::Space));
    assert_eq!(KeyCode::from_native(1073741903), Some(KeyCode::Right));
    assert_eq!(KeyCode::from_native(1073741906), Some(KeyCode::Up));
    assert_eq!(KeyCode::from_native(99), None);
    for i in 0..11 {
        assert_eq!(KeyCode::from_index(i).index(), i);
    }
}

#[test]
fn key_state_edges() {
    let s = KeyCodeState::new();
    assert!(!s.pressed && !s.old_pressed);
    assert!(!s.is_just_pressed() && !s.is_just_released());
    let p = KeyCodeState { pressed: true, old_pressed: false };
    assert!(p.is_just_pressed() && !p.is_just_released());
    let r = KeyCodeState { pressed: false, old_pressed: true };
    assert!(r.is_just_released() && !r.is_just_pressed());
}

#[test]
fn mouse_button_edges() {
    let mut b = MouseButton::default();
    b.set_state(true);
    assert!(b.is_pressed() && b.is_just_pressed() && !b.is_released());
    b.set_state(true);
    assert!(b.is_pressed() && !b.is_just_pressed());
    b.set_state(false);
    assert!(b.is_released() && b.is_just_released());
    b.set_state(false);
    assert!(b.is_released() && !b.is_just_released());
}

#[test]
fn mouse_update() {
    let mut m = Mouse::new();
    m.update(10, 20, true, false);
    assert_eq!((m.x, m.y), (10, 20));
    assert!(m.button_is_just_pressed(MouseButtonId::Left));
    assert!(m.button_is_pressed(MouseButtonId::Left));
    assert!(m.button_is_released(MouseButtonId::Right));
    m.update(11, 21, false, true);
    assert!(m.button_is_just_released(MouseButtonId::Left));
    assert!(m.button_is_just_pressed(MouseButtonId::Right));
    assert!(!m.button_is_just_pressed(MouseButtonId::Left));
}
