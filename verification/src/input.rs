use vstd::prelude::*;

verus! {

/// The physical keys that the camera controls listen to; every other key is `Other`.
#[derive(Clone, Copy, Debug, PartialEq, Eq, Structural)]
pub enum Key {
    KeyW,
    KeyS,
    KeyA,
    KeyD,
    ArrowUp,
    ArrowDown,
    ArrowLeft,
    ArrowRight,
    Space,
    ControlLeft,
    ShiftLeft,
    ShiftRight,
    KeyK,
    Other,
}

/// One held-down flag of the input state.
#[derive(Clone, Copy, Debug, PartialEq, Eq, Structural)]
pub enum Control {
    Forward,
    Backward,
    Left,
    Right,
    Up,
    Down,
    Sprint,
    LogCamera,
}

/// The control that a key drives, if any.
pub open spec fn control_of(key: Key) -> Option<Control> {
    match key {
        Key::KeyW | Key::ArrowUp => Some(Control::Forward),
        Key::KeyS | Key::ArrowDown => Some(Control::Backward),
        Key::KeyA | Key::ArrowLeft => Some(Control::Left),
        Key::KeyD | Key::ArrowRight => Some(Control::Right),
        Key::Space => Some(Control::Up),
        Key::ControlLeft => Some(Control::Down),
        Key::ShiftLeft | Key::ShiftRight => Some(Control::Sprint),
        Key::KeyK => Some(Control::LogCamera),
        Key::Other => None,
    }
}

impl Key {
    /// The control that this key drives, if any.
    pub fn control(&self) -> (control: Option<Control>)
        ensures
            control == control_of(*self),
    {
        match self {
            Key::KeyW | Key::ArrowUp => Some(Control::Forward),
            Key::KeyS | Key::ArrowDown => Some(Control::Backward),
            Key::KeyA | Key::ArrowLeft => Some(Control::Left),
            Key::KeyD | Key::ArrowRight => Some(Control::Right),
            Key::Space => Some(Control::Up),
            Key::ControlLeft => Some(Control::Down),
            Key::ShiftLeft | Key::ShiftRight => Some(Control::Sprint),
            Key::KeyK => Some(Control::LogCamera),
            Key::Other => None,
        }
    }
}

/// Which camera controls are currently held down.
#[derive(Clone, Copy, Debug, PartialEq, Eq, Structural)]
pub struct InputState {
    pub forward: bool,
    pub backward: bool,
    pub left: bool,
    pub right: bool,
    pub up: bool,
    pub down: bool,
    pub sprint: bool,
    pub log_camera: bool,
}

impl Default for InputState {
    /// Nothing held down.
    fn default() -> (state: InputState)
        ensures
            !state.forward,
            !state.backward,
            !state.left,
            !state.right,
            !state.up,
            !state.down,
            !state.sprint,
            !state.log_camera,
    {
        InputState {
            forward: false,
            backward: false,
            left: false,
            right: false,
            up: false,
            down: false,
            sprint: false,
            log_camera: false,
        }
    }
}

/// The contribution of a pair of opposite controls to one movement axis:
/// `1` towards the positive one, `-1` towards the negative one, `0` for both or neither.
pub open spec fn axis_value(positive: bool, negative: bool) -> int {
    (if positive { 1int } else { 0int }) - (if negative { 1int } else { 0int })
}

/// The direction of camera motion that the held controls ask for, one entry per
/// camera axis, each in `-1..=1`.
#[derive(Clone, Copy, Debug, PartialEq, Eq, Structural)]
pub struct MovementAxes {
    /// Along the camera's forward vector.
    pub forward: i8,
    /// Along the camera's right vector.
    pub right: i8,
    /// Along the global up vector.
    pub up: i8,
}

impl InputState {
    /// Whether control `c` is held.
    pub open spec fn held(self, c: Control) -> bool {
        match c {
            Control::Forward => self.forward,
            Control::Backward => self.backward,
            Control::Left => self.left,
            Control::Right => self.right,
            Control::Up => self.up,
            Control::Down => self.down,
            Control::Sprint => self.sprint,
            Control::LogCamera => self.log_camera,
        }
    }

    /// This state with control `c` set to `value` and every other control as it is.
    pub open spec fn with_control(self, c: Control, value: bool) -> InputState {
        match c {
            Control::Forward => InputState { forward: value, ..self },
            Control::Backward => InputState { backward: value, ..self },
            Control::Left => InputState { left: value, ..self },
            Control::Right => InputState { right: value, ..self },
            Control::Up => InputState { up: value, ..self },
            Control::Down => InputState { down: value, ..self },
            Control::Sprint => InputState { sprint: value, ..self },
            Control::LogCamera => InputState { log_camera: value, ..self },
        }
    }

    /// The state after `key` went down (`is_pressed`) or up.
    pub open spec fn after_key_event(self, key: Key, is_pressed: bool) -> InputState {
        match control_of(key) {
            Some(c) => self.with_control(c, is_pressed),
            None => self,
        }
    }

    /// Records that `key` went down (`is_pressed`) or up: the control that the key
    /// drives takes the new value, and nothing else changes.
    pub fn on_key_event(&mut self, key: Key, is_pressed: bool)
        ensures
            *final(self) == old(self).after_key_event(key, is_pressed),
    {
        match key.control() {
            Some(c) => self.set_control(c, is_pressed),
            None => {},
        }
    }

    fn set_control(&mut self, c: Control, value: bool)
        ensures
            *final(self) == old(self).with_control(c, value),
    {
        match c {
            Control::Forward => self.forward = value,
            Control::Backward => self.backward = value,
            Control::Left => self.left = value,
            Control::Right => self.right = value,
            Control::Up => self.up = value,
            Control::Down => self.down = value,
            Control::Sprint => self.sprint = value,
            Control::LogCamera => self.log_camera = value,
        }
    }

    /// The direction in which the held controls move the camera: forward minus
    /// backward, right minus left, up minus down.
    pub fn movement_axes(&self) -> (axes: MovementAxes)
        ensures
            axes.forward == axis_value(self.forward, self.backward),
            axes.right == axis_value(self.right, self.left),
            axes.up == axis_value(self.up, self.down),
    {
        MovementAxes {
            forward: axis(self.forward, self.backward),
            right: axis(self.right, self.left),
            up: axis(self.up, self.down),
        }
    }
}

fn axis(positive: bool, negative: bool) -> (value: i8)
    ensures
        value == axis_value(positive, negative),
{
    let mut value: i8 = 0;
    if positive {
        value = value + 1;
    }
    if negative {
        value = value - 1;
    }
    value
}

/// A key event changes the control that the key drives to the new value and leaves
/// every other control as it was.
pub proof fn key_event_sets_only_its_control(state: InputState, key: Key, is_pressed: bool)
    ensures
        forall|c: Control|
            #[trigger] state.after_key_event(key, is_pressed).held(c) == if control_of(key) == Some(c) {
                is_pressed
            } else {
                state.held(c)
            },
{
}

/// Each key drives its own field of the input state: W and the up arrow `forward`, S
/// and the down arrow `backward`, A and the left arrow `left`, D and the right arrow
/// `right`, space `up`, left control `down`, either shift `sprint`, K `log_camera`.
pub proof fn keys_drive_their_fields(s: InputState, p: bool)
    ensures
        s.after_key_event(Key::KeyW, p) == (InputState { forward: p, ..s }),
        s.after_key_event(Key::ArrowUp, p) == (InputState { forward: p, ..s }),
        s.after_key_event(Key::KeyS, p) == (InputState { backward: p, ..s }),
        s.after_key_event(Key::ArrowDown, p) == (InputState { backward: p, ..s }),
        s.after_key_event(Key::KeyA, p) == (InputState { left: p, ..s }),
        s.after_key_event(Key::ArrowLeft, p) == (InputState { left: p, ..s }),
        s.after_key_event(Key::KeyD, p) == (InputState { right: p, ..s }),
        s.after_key_event(Key::ArrowRight, p) == (InputState { right: p, ..s }),
        s.after_key_event(Key::Space, p) == (InputState { up: p, ..s }),
        s.after_key_event(Key::ControlLeft, p) == (InputState { down: p, ..s }),
        s.after_key_event(Key::ShiftLeft, p) == (InputState { sprint: p, ..s }),
        s.after_key_event(Key::ShiftRight, p) == (InputState { sprint: p, ..s }),
        s.after_key_event(Key::KeyK, p) == (InputState { log_camera: p, ..s }),
        s.after_key_event(Key::Other, p) == s,
{
}

/// Each control reads its own field: forward, backward, left, right, up, down, sprint,
/// log camera.
pub proof fn controls_read_their_fields(s: InputState)
    ensures
        s.held(Control::Forward) == s.forward,
        s.held(Control::Backward) == s.backward,
        s.held(Control::Left) == s.left,
        s.held(Control::Right) == s.right,
        s.held(Control::Up) == s.up,
        s.held(Control::Down) == s.down,
        s.held(Control::Sprint) == s.sprint,
        s.held(Control::LogCamera) == s.log_camera,
{
}

/// A movement axis is +1 when only its positive control is held, -1 when only its
/// negative one is, and 0 otherwise.
pub proof fn axis_values()
    ensures
        axis_value(true, false) == 1,
        axis_value(false, true) == -1,
        axis_value(true, true) == 0,
        axis_value(false, false) == 0,
{
}

/// A key that drives no control leaves the input state unchanged.
pub proof fn unmapped_key_changes_nothing(state: InputState, key: Key, is_pressed: bool)
    requires
        control_of(key) is None,
    ensures
        state.after_key_event(key, is_pressed) == state,
{
}

/// Only the last of two events of the same key counts; in particular a press followed
/// by a release leaves the control released, as if the press had not happened.
pub proof fn last_key_event_wins(state: InputState, key: Key, first: bool, second: bool)
    ensures
        state.after_key_event(key, first).after_key_event(key, second) == state.after_key_event(
            key,
            second,
        ),
{
}

/// Pressing and releasing a key returns a state in which its control was released to
/// that same state.
pub proof fn press_then_release_restores(state: InputState, key: Key)
    requires
        control_of(key) matches Some(c) ==> !state.held(c),
    ensures
        state.after_key_event(key, true).after_key_event(key, false) == state,
{
}

/// Two keys that drive the same control have the same effect (`W` and the up arrow,
/// for example).
pub proof fn keys_of_one_control_agree(state: InputState, a: Key, b: Key, is_pressed: bool)
    requires
        control_of(a) == control_of(b),
    ensures
        state.after_key_event(a, is_pressed) == state.after_key_event(b, is_pressed),
{
}

/// Holding both controls of an axis, or neither, leaves the camera still along it.
pub proof fn opposite_controls_cancel(state: InputState)
    requires
        state.forward == state.backward,
        state.right == state.left,
        state.up == state.down,
    ensures
        axis_value(state.forward, state.backward) == 0,
        axis_value(state.right, state.left) == 0,
        axis_value(state.up, state.down) == 0,
{
}

} // verus!
