//! Keyboard control of the debug window's camera.
//!
//! Each bound key holds one motion of the camera while it is pressed. The
//! controller remembers which motions are held; moving the camera by them
//! is left to the renderer. The speeds are of a type `S` that the
//! controller only stores.
use vstd::prelude::*;

verus! {

/// The keys the window reacts to; every other key is `Other`.
#[derive(Clone, Copy, PartialEq, Eq, Structural, Debug)]
pub enum KeyCode {
    KeyW,
    KeyA,
    KeyS,
    KeyD,
    KeyE,
    KeyQ,
    Space,
    ShiftLeft,
    ShiftRight,
    ArrowLeft,
    ArrowRight,
    ArrowUp,
    ArrowDown,
    Escape,
    Other,
}

/// The motions of the camera.
#[derive(Clone, Copy, PartialEq, Eq, Structural, Debug)]
pub enum Motion {
    Forward,
    Backward,
    Left,
    Right,
    Up,
    Down,
    YawRight,
    YawLeft,
    PitchUp,
    PitchDown,
}

/// The motion a key holds, if it is bound to one.
pub open spec fn key_motion(code: KeyCode) -> Option<Motion> {
    match code {
        KeyCode::KeyW => Some(Motion::Forward),
        KeyCode::KeyA => Some(Motion::Left),
        KeyCode::KeyS => Some(Motion::Backward),
        KeyCode::KeyD => Some(Motion::Right),
        KeyCode::KeyE | KeyCode::Space => Some(Motion::Up),
        KeyCode::KeyQ | KeyCode::ShiftLeft | KeyCode::ShiftRight => Some(Motion::Down),
        KeyCode::ArrowLeft => Some(Motion::YawLeft),
        KeyCode::ArrowRight => Some(Motion::YawRight),
        KeyCode::ArrowUp => Some(Motion::PitchUp),
        KeyCode::ArrowDown => Some(Motion::PitchDown),
        _ => None,
    }
}

/// The camera's key state and its translation and rotation speeds.
pub struct CameraController<S> {
    pub translation_speed: S,
    pub rotation_speed: S,
    pub is_forward_pressed: bool,
    pub is_backward_pressed: bool,
    pub is_left_pressed: bool,
    pub is_right_pressed: bool,
    pub is_up_pressed: bool,
    pub is_down_pressed: bool,
    pub is_yaw_right_pressed: bool,
    pub is_yaw_left_pressed: bool,
    pub is_pitch_up_pressed: bool,
    pub is_pitch_down_pressed: bool,
}

impl<S> CameraController<S> {
    /// Whether the motion `m` is held.
    pub open spec fn pressed(self, m: Motion) -> bool {
        match m {
            Motion::Forward => self.is_forward_pressed,
            Motion::Backward => self.is_backward_pressed,
            Motion::Left => self.is_left_pressed,
            Motion::Right => self.is_right_pressed,
            Motion::Up => self.is_up_pressed,
            Motion::Down => self.is_down_pressed,
            Motion::YawRight => self.is_yaw_right_pressed,
            Motion::YawLeft => self.is_yaw_left_pressed,
            Motion::PitchUp => self.is_pitch_up_pressed,
            Motion::PitchDown => self.is_pitch_down_pressed,
        }
    }

    /// The controller with motion `m` held (`held`) or released.
    pub open spec fn with_motion(self, m: Motion, held: bool) -> Self {
        match m {
            Motion::Forward => CameraController { is_forward_pressed: held, ..self },
            Motion::Backward => CameraController { is_backward_pressed: held, ..self },
            Motion::Left => CameraController { is_left_pressed: held, ..self },
            Motion::Right => CameraController { is_right_pressed: held, ..self },
            Motion::Up => CameraController { is_up_pressed: held, ..self },
            Motion::Down => CameraController { is_down_pressed: held, ..self },
            Motion::YawRight => CameraController { is_yaw_right_pressed: held, ..self },
            Motion::YawLeft => CameraController { is_yaw_left_pressed: held, ..self },
            Motion::PitchUp => CameraController { is_pitch_up_pressed: held, ..self },
            Motion::PitchDown => CameraController { is_pitch_down_pressed: held, ..self },
        }
    }

    /// The controller after the key `code` went down (`is_pressed`) or up:
    /// the motion of a bound key follows the key; an unbound key changes
    /// nothing.
    pub open spec fn with_key(self, code: KeyCode, is_pressed: bool) -> Self {
        match key_motion(code) {
            Some(m) => self.with_motion(m, is_pressed),
            None => self,
        }
    }

    /// A controller with the given speeds and no motion held.
    pub fn new(translation_speed: S, rotation_speed: S) -> (controller: Self)
        ensures
            controller.translation_speed == translation_speed,
            controller.rotation_speed == rotation_speed,
            forall|m: Motion| !(#[trigger] controller.pressed(m)),
    {
        CameraController {
            translation_speed,
            rotation_speed,
            is_forward_pressed: false,
            is_backward_pressed: false,
            is_left_pressed: false,
            is_right_pressed: false,
            is_up_pressed: false,
            is_down_pressed: false,
            is_yaw_right_pressed: false,
            is_yaw_left_pressed: false,
            is_pitch_up_pressed: false,
            is_pitch_down_pressed: false,
        }
    }

    /// Records that the key `code` went down (`is_pressed`) or up, and says
    /// whether the key is bound to a motion.
    #[verifier::rlimit(30)]
    pub fn handle_key(&mut self, code: KeyCode, is_pressed: bool) -> (recognized: bool)
        ensures
            recognized == key_motion(code) is Some,
            *final(self) == old(self).with_key(code, is_pressed),
            final(self).translation_speed == old(self).translation_speed,
            final(self).rotation_speed == old(self).rotation_speed,
    {
        proof {
            lemma_with_key_pressed(*old(self), code, is_pressed);
        }
        match code {
            KeyCode::KeyW => {
                self.is_forward_pressed = is_pressed;
                true
            },
            KeyCode::KeyA => {
                self.is_left_pressed = is_pressed;
                true
            },
            KeyCode::KeyS => {
                self.is_backward_pressed = is_pressed;
                true
            },
            KeyCode::KeyD => {
                self.is_right_pressed = is_pressed;
                true
            },
            KeyCode::KeyE | KeyCode::Space => {
                self.is_up_pressed = is_pressed;
                true
            },
            KeyCode::KeyQ | KeyCode::ShiftLeft | KeyCode::ShiftRight => {
                self.is_down_pressed = is_pressed;
                true
            },
            KeyCode::ArrowLeft => {
                self.is_yaw_left_pressed = is_pressed;
                true
            },
            KeyCode::ArrowRight => {
                self.is_yaw_right_pressed = is_pressed;
                true
            },
            KeyCode::ArrowUp => {
                self.is_pitch_up_pressed = is_pressed;
                true
            },
            KeyCode::ArrowDown => {
                self.is_pitch_down_pressed = is_pressed;
                true
            },
            _ => false,
        }
    }
}

/// What a key event does to each motion: the bound motion follows the key,
/// every other motion and both speeds stay as they were.
pub proof fn lemma_with_key_pressed<S>(c: CameraController<S>, code: KeyCode, is_pressed: bool)
    ensures
        forall|m: Motion|
            #[trigger] c.with_key(code, is_pressed).pressed(m) == if key_motion(code) == Some(m) {
                is_pressed
            } else {
                c.pressed(m)
            },
        c.with_key(code, is_pressed).translation_speed == c.translation_speed,
        c.with_key(code, is_pressed).rotation_speed == c.rotation_speed,
{
    assert forall|m: Motion|
        #[trigger] c.with_key(code, is_pressed).pressed(m) == if key_motion(code) == Some(m) {
            is_pressed
        } else {
            c.pressed(m)
        } by {
        match key_motion(code) {
            Some(k) => {
                match k {
                    Motion::Forward => {},
                    Motion::Backward => {},
                    Motion::Left => {},
                    Motion::Right => {},
                    Motion::Up => {},
                    Motion::Down => {},
                    Motion::YawRight => {},
                    Motion::YawLeft => {},
                    Motion::PitchUp => {},
                    Motion::PitchDown => {},
                }
            },
            None => {},
        }
    }
    match key_motion(code) {
        Some(k) => {
            match k {
                Motion::Forward => {},
                Motion::Backward => {},
                Motion::Left => {},
                Motion::Right => {},
                Motion::Up => {},
                Motion::Down => {},
                Motion::YawRight => {},
                Motion::YawLeft => {},
                Motion::PitchUp => {},
                Motion::PitchDown => {},
            }
        },
        None => {},
    }
}

/// Two controllers with the same speeds that hold the same motions are the
/// same controller.
proof fn lemma_same_motions_same_controller<S>(c: CameraController<S>, d: CameraController<S>)
    requires
        c.translation_speed == d.translation_speed,
        c.rotation_speed == d.rotation_speed,
        forall|m: Motion| #[trigger] c.pressed(m) == d.pressed(m),
    ensures
        c == d,
{
    assert(c.pressed(Motion::Forward) == d.pressed(Motion::Forward));
    assert(c.pressed(Motion::Backward) == d.pressed(Motion::Backward));
    assert(c.pressed(Motion::Left) == d.pressed(Motion::Left));
    assert(c.pressed(Motion::Right) == d.pressed(Motion::Right));
    assert(c.pressed(Motion::Up) == d.pressed(Motion::Up));
    assert(c.pressed(Motion::Down) == d.pressed(Motion::Down));
    assert(c.pressed(Motion::YawRight) == d.pressed(Motion::YawRight));
    assert(c.pressed(Motion::YawLeft) == d.pressed(Motion::YawLeft));
    assert(c.pressed(Motion::PitchUp) == d.pressed(Motion::PitchUp));
    assert(c.pressed(Motion::PitchDown) == d.pressed(Motion::PitchDown));
}

/// Releasing a key undoes pressing it: from a state in which the key's
/// motion was not held, a press followed by a release of that key gives
/// the state back.
pub proof fn lemma_release_undoes_press<S>(c: CameraController<S>, code: KeyCode)
    requires
        key_motion(code) is Some ==> !c.pressed(key_motion(code)->0),
    ensures
        c.with_key(code, true).with_key(code, false) == c,
{
}

/// Repeating a key event changes nothing more: a key that is held down
/// (auto-repeat) or released twice leaves the state of the first event.
pub proof fn lemma_repeated_key_event<S>(c: CameraController<S>, code: KeyCode, is_pressed: bool)
    ensures
        c.with_key(code, is_pressed).with_key(code, is_pressed) == c.with_key(code, is_pressed),
{
}

/// Events of keys bound to different motions do not interfere: applying
/// them in either order gives the same state.
pub proof fn lemma_independent_keys_commute<S>(
    c: CameraController<S>,
    a: KeyCode,
    p: bool,
    b: KeyCode,
    q: bool,
)
    requires
        key_motion(a) != key_motion(b),
    ensures
        c.with_key(a, p).with_key(b, q) == c.with_key(b, q).with_key(a, p),
{
    let ab = c.with_key(a, p).with_key(b, q);
    let ba = c.with_key(b, q).with_key(a, p);
    lemma_with_key_pressed(c, a, p);
    lemma_with_key_pressed(c, b, q);
    lemma_with_key_pressed(c.with_key(a, p), b, q);
    lemma_with_key_pressed(c.with_key(b, q), a, p);
    assert forall|m: Motion| #[trigger] ab.pressed(m) == ba.pressed(m) by {
        assert(ab.pressed(m) == if key_motion(b) == Some(m) {
            q
        } else {
            c.with_key(a, p).pressed(m)
        });
        assert(ba.pressed(m) == if key_motion(a) == Some(m) {
            p
        } else {
            c.with_key(b, q).pressed(m)
        });
        assert(c.with_key(a, p).pressed(m) == if key_motion(a) == Some(m) {
            p
        } else {
            c.pressed(m)
        });
        assert(c.with_key(b, q).pressed(m) == if key_motion(b) == Some(m) {
            q
        } else {
            c.pressed(m)
        });
    }
    lemma_same_motions_same_controller(ab, ba);
}

/// The last event of a key decides its motion, whatever came before: any
/// two states that receive the same event agree on that key's motion.
pub proof fn lemma_last_event_decides<S>(
    c: CameraController<S>,
    d: CameraController<S>,
    code: KeyCode,
    is_pressed: bool,
)
    requires
        key_motion(code) is Some,
    ensures
        c.with_key(code, is_pressed).pressed(key_motion(code)->0) == d.with_key(
            code,
            is_pressed,
        ).pressed(key_motion(code)->0),
{
}

} // verus!
