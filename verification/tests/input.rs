use realtime_render::input::{Control, InputState, Key, MovementAxes};

fn nothing() -> InputState {
    InputState::default()
}

#[test]
fn default_holds_nothing() {
    let s = nothing();
    assert!(!s.forward && !s.backward && !s.left && !s.right);
    assert!(!s.up && !s.down && !s.sprint && !s.log_camera);
}

#[test]
fn keys_map_to_controls() {
    assert_eq!(Key::KeyW.control(), Some(Control::Forward));
    assert_eq!(Key::ArrowUp.control(), Some(Control::Forward));
    assert_eq!(Key::KeyS.control(), Some(Control::Backward));
    assert_eq!(Key::ArrowDown.control(), Some(Control::Backward));
    assert_eq!(Key::KeyA.control(), Some(Control::Left));
    assert_eq!(Key::ArrowLeft.control(), Some(Control::Left));
    assert_eq!(Key::KeyD.control(), Some(Control::Right));
    assert_eq!(Key::ArrowRight.control(), Some(Control::Right));
    assert_eq!(Key::Space.control(), Some(Control::Up));
    assert_eq!(Key::ControlLeft.control(), Some(Control::Down));
    assert_eq!(Key::ShiftLeft.control(), Some(Control::Sprint));
    assert_eq!(Key::ShiftRight.control(), Some(Control::Sprint));
    assert_eq!(Key::KeyK.control(), Some(Control::LogCamera));
    assert_eq!(Key::Other.control(), None);
}

#[test]
fn key_event_sets_only_its_control() {
    let mut s = nothing();
    s.on_key_event(Key::Space, true);
    let mut expected = nothing();
    expected.up = true;
    assert_eq!(s, expected);
    s.on_key_event(Key::ShiftRight, true);
    expected.sprint = true;
    assert_eq!(s, expected);
}

#[test]
fn unmapped_key_changes_nothing() {
    let mut s = nothing();
    s.forward = true;
    let before = s;
    s.on_key_event(Key::Other, true);
    assert_eq!(s, before);
    s.on_key_event(Key::Other, false);
    assert_eq!(s, before);
}

#[test]
fn press_then_release_restores() {
    let mut s = nothing();
    s.left = true;
    let before = s;
    s.on_key_event(Key::ControlLeft, true);
    assert!(s.down);
    s.on_key_event(Key::ControlLeft, false);
    assert_eq!(s, before);
}

#[test]
fn keys_of_one_control_agree() {
    let mut a = nothing();
    let mut b = nothing();
    a.on_key_event(Key::KeyD, true);
    b.on_key_event(Key::ArrowRight, true);
    assert_eq!(a, b);
    // releasing either alias releases the shared control
    a.on_key_event(Key::ArrowRight, false);
    assert!(!a.right);
}

#[test]
fn last_key_event_wins() {
    let mut s = nothing();
    s.on_key_event(Key::KeyK, true);
    s.on_key_event(Key::KeyK, true);
    assert!(s.log_camera);
    s.on_key_event(Key::KeyK, false);
    assert!(!s.log_camera);
}

#[test]
fn movement_axes_follow_held_controls() {
    let mut s = nothing();
    assert_eq!(s.movement_axes(), MovementAxes { forward: 0, right: 0, up: 0 });
    s.on_key_event(Key::KeyW, true);
    s.on_key_event(Key::KeyA, true);
    s.on_key_event(Key::ControlLeft, true);
    assert_eq!(s.movement_axes(), MovementAxes { forward: 1, right: -1, up: -1 });
    s.on_key_event(Key::KeyS, true);
    s.on_key_event(Key::KeyD, true);
    s.on_key_event(Key::Space, true);
    assert_eq!(s.movement_axes(), MovementAxes { forward: 0, right: 0, up: 0 });
    s.on_key_event(Key::ArrowUp, false);
    assert_eq!(s.movement_axes(), MovementAxes { forward: -1, right: 0, up: 0 });
}
