//! Camera input state: the up axis, the movement keys a controller tracks,
//! and which moves a controller makes on a tick.
use vstd::prelude::*;

verus! {

/// A world axis that can serve as the camera's up direction.
#[derive(Clone, Copy, Debug, PartialEq, Eq, Structural)]
pub enum Axis {
    X,
    Y,
    Z,
}

/// The unit basis vector along an axis.
pub open spec fn axis_unit(a: Axis) -> Seq<i32> {
    match a {
        Axis::X => seq![1i32, 0i32, 0i32],
        Axis::Y => seq![0i32, 1i32, 0i32],
        Axis::Z => seq![0i32, 0i32, 1i32],
    }
}

impl Axis {
    /// The unit basis vector along the axis, as `[x, y, z]`.
    pub fn to_vector3(&self) -> (r: [i32; 3])
        ensures
            r@ == axis_unit(*self),
    {
        let r = match self {
            Axis::X => [1, 0, 0],
            Axis::Y => [0, 1, 0],
            Axis::Z => [0, 0, 1],
        };
        assert(r@ =~= axis_unit(*self));
        r
    }
}

/// The keys that the frame loop reads; any other key is `Other`.
#[derive(Clone, Copy, Debug, PartialEq, Eq, Structural)]
pub enum Key {
    W,
    A,
    S,
    D,
    F,
    Escape,
    Up,
    Left,
    Right,
    Other,
}

/// Whether a key is one of the four movement keys a controller tracks.
pub open spec fn is_movement_key(k: Key) -> bool {
    k == Key::W || k == Key::A || k == Key::S || k == Key::D
}

/// Units per second that a default controller moves the camera.
pub const CAMERA_SPEED_UNITS_PER_SECOND_DEFAULT: u32 = 30;

/// Which movement keys are held.
pub struct HeldKeys {
    pub forward: bool,
    pub backward: bool,
    pub left: bool,
    pub right: bool,
}

/// The moves a controller makes on one tick.
#[derive(Clone, Copy, Debug, PartialEq, Eq, Structural)]
pub struct MovePlan {
    /// Step the eye toward the target.
    pub advance: bool,
    /// Step the eye away from the target.
    pub retreat: bool,
    /// Swing the eye round the target toward the camera's right.
    pub orbit_right: bool,
    /// Swing the eye round the target toward the camera's left.
    pub orbit_left: bool,
}

/// Maps the movement keys W, S, A, D (forward, backward, left, right) to held
/// flags, and the flags to the moves of a tick at a speed in world units per
/// second.
pub struct CameraController {
    speed: u32,
    is_forward_pressed: bool,
    is_backward_pressed: bool,
    is_left_pressed: bool,
    is_right_pressed: bool,
}

impl View for CameraController {
    type V = HeldKeys;

    closed spec fn view(&self) -> HeldKeys {
        HeldKeys {
            forward: self.is_forward_pressed,
            backward: self.is_backward_pressed,
            left: self.is_left_pressed,
            right: self.is_right_pressed,
        }
    }
}

impl CameraController {
    /// The speed in world units per second.
    pub closed spec fn speed_spec(&self) -> nat {
        self.speed as nat
    }

    /// A controller with no key held.
    pub fn new(speed: u32) -> (r: CameraController)
        ensures
            r.speed_spec() == speed,
            !r@.forward && !r@.backward && !r@.left && !r@.right,
    {
        CameraController {
            speed,
            is_forward_pressed: false,
            is_backward_pressed: false,
            is_left_pressed: false,
            is_right_pressed: false,
        }
    }

    pub fn speed(&self) -> (r: u32)
        ensures
            r == self.speed_spec(),
    {
        self.speed
    }

    /// Records a movement key going down (`pressed`) or up. Returns whether
    /// the key was one of the four tracked; any other key changes nothing and
    /// is left for other handlers.
    pub fn process_events(&mut self, key: Key, pressed: bool) -> (r: bool)
        ensures
            r == is_movement_key(key),
            final(self).speed_spec() == old(self).speed_spec(),
            final(self)@.forward == (if key == Key::W { pressed } else { old(self)@.forward }),
            final(self)@.left == (if key == Key::A { pressed } else { old(self)@.left }),
            final(self)@.backward == (if key == Key::S { pressed } else { old(self)@.backward }),
            final(self)@.right == (if key == Key::D { pressed } else { old(self)@.right }),
    {
        match key {
            Key::W => {
                self.is_forward_pressed = pressed;
                true
            },
            Key::A => {
                self.is_left_pressed = pressed;
                true
            },
            Key::S => {
                self.is_backward_pressed = pressed;
                true
            },
            Key::D => {
                self.is_right_pressed = pressed;
                true
            },
            _ => false,
        }
    }

    /// The distance of one tick lasting `dt_nanos` nanoseconds, in
    /// billionths of a world unit: speed times duration.
    pub fn step_length(&self, dt_nanos: u64) -> (r: u128)
        ensures
            r == self.speed_spec() * dt_nanos,
    {
        let speed = self.speed as u128;
        let dt = dt_nanos as u128;
        assert(speed * dt <= u32::MAX as int * u64::MAX as int) by (nonlinear_arith)
            requires
                speed <= u32::MAX,
                dt <= u64::MAX,
        ;
        speed * dt
    }

    /// The moves of one tick. `target_beyond_step` says whether the target
    /// lies farther from the eye than one step: only then may the eye
    /// advance, so that it never passes through the target. Retreating has no
    /// such guard. Orbiting keeps the eye's distance to the target.
    pub fn plan(&self, target_beyond_step: bool) -> (r: MovePlan)
        ensures
            r.advance == (self@.forward && target_beyond_step),
            r.retreat == self@.backward,
            r.orbit_right == self@.right,
            r.orbit_left == self@.left,
    {
        MovePlan {
            advance: self.is_forward_pressed && target_beyond_step,
            retreat: self.is_backward_pressed,
            orbit_right: self.is_right_pressed,
            orbit_left: self.is_left_pressed,
        }
    }
}

impl Default for CameraController {
    fn default() -> (r: CameraController)
        ensures
            r.speed_spec() == CAMERA_SPEED_UNITS_PER_SECOND_DEFAULT,
            !r@.forward && !r@.backward && !r@.left && !r@.right,
    {
        CameraController::new(CAMERA_SPEED_UNITS_PER_SECOND_DEFAULT)
    }
}

} // verus!
