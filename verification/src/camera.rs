//! The discrete state of the viewport and of the camera controller: pixel
//! sizes, which keys are held, whether the mouse button is down.

use vstd::prelude::*;

verus! {

/// The viewport and lens. Width and height are pixels; the aspect ratio
/// is their quotient. Field of view and clip planes are bit patterns of
/// single-precision numbers, kept as they were given.
#[derive(Clone, Copy, Debug, PartialEq, Eq, Structural)]
pub struct Projection {
    pub width: u32,
    pub height: u32,
    pub fovy: u32,
    pub znear: u32,
    pub zfar: u32,
}

impl Projection {
    /// The aspect ratio as numerator and denominator.
    pub open spec fn aspect(self) -> (int, int) {
        (self.width as int, self.height as int)
    }

    /// The aspect ratio is a number: neither side is zero.
    pub open spec fn valid(self) -> bool {
        self.width > 0 && self.height > 0
    }

    /// A projection of the given size and lens.
    pub fn new(width: u32, height: u32, fovy: u32, znear: u32, zfar: u32) -> (p: Projection)
        ensures
            p == (Projection { width, height, fovy, znear, zfar }),
    {
        Projection { width, height, fovy, znear, zfar }
    }

    /// Can the viewport take this size? Not while a side is zero.
    pub fn accepts(width: u32, height: u32) -> (ok: bool)
        ensures
            ok == (width > 0 && height > 0),
    {
        width > 0 && height > 0
    }

    /// Takes a new viewport size. A size with a side of zero changes
    /// nothing; any other replaces width and height and leaves the lens
    /// as it is.
    pub fn resize(&mut self, width: u32, height: u32)
        ensures
            width > 0 && height > 0 ==> *final(self) == (Projection {
                width,
                height,
                ..*old(self)
            }),
            !(width > 0 && height > 0) ==> *final(self) == *old(self),
            width == 0 || height == 0 ==> final(self).aspect() == old(self).aspect(),
            old(self).valid() ==> final(self).valid(),
    {
        if Projection::accepts(width, height) {
            self.width = width;
            self.height = height;
        }
    }
}

/// The keys that the application tells apart.
#[derive(Clone, Copy, Debug, PartialEq, Eq, Structural)]
pub enum Key {
    W,
    A,
    S,
    D,
    Up,
    Down,
    Left,
    Right,
    Space,
    LShift,
    Escape,
    Other,
}

/// The six ways the camera moves.
#[derive(Clone, Copy, Debug, PartialEq, Eq, Structural)]
pub enum Motion {
    Forward,
    Backward,
    Left,
    Right,
    Up,
    Down,
}

/// The motion that a key stands for, if any.
pub open spec fn motion_of(key: Key) -> Option<Motion> {
    match key {
        Key::W | Key::Up => Some(Motion::Forward),
        Key::S | Key::Down => Some(Motion::Backward),
        Key::A | Key::Left => Some(Motion::Left),
        Key::D | Key::Right => Some(Motion::Right),
        Key::Space => Some(Motion::Up),
        Key::LShift => Some(Motion::Down),
        Key::Escape | Key::Other => None,
    }
}

/// Which motions are held, and whether the mouse button is down. A motion
/// stays held until its key is released.
#[derive(Clone, Copy, Debug, PartialEq, Eq, Structural)]
pub struct CameraController {
    pub forward: bool,
    pub backward: bool,
    pub left: bool,
    pub right: bool,
    pub up: bool,
    pub down: bool,
    pub mouse_pressed: bool,
}

/// One if `plus` alone is held, minus one if `minus` alone, else zero.
pub open spec fn net(plus: bool, minus: bool) -> int {
    (if plus {
        1int
    } else {
        0int
    }) - (if minus {
        1int
    } else {
        0int
    })
}

impl CameraController {
    /// Is the motion `m` held?
    pub open spec fn held(self, m: Motion) -> bool {
        match m {
            Motion::Forward => self.forward,
            Motion::Backward => self.backward,
            Motion::Left => self.left,
            Motion::Right => self.right,
            Motion::Up => self.up,
            Motion::Down => self.down,
        }
    }

    /// This state with the motion `m` held or not.
    pub open spec fn with(self, m: Motion, on: bool) -> CameraController {
        match m {
            Motion::Forward => CameraController { forward: on, ..self },
            Motion::Backward => CameraController { backward: on, ..self },
            Motion::Left => CameraController { left: on, ..self },
            Motion::Right => CameraController { right: on, ..self },
            Motion::Up => CameraController { up: on, ..self },
            Motion::Down => CameraController { down: on, ..self },
        }
    }

    /// A controller with nothing held.
    pub fn new() -> (c: CameraController)
        ensures
            forall|m: Motion| !c.held(m),
            !c.mouse_pressed,
    {
        CameraController {
            forward: false,
            backward: false,
            left: false,
            right: false,
            up: false,
            down: false,
            mouse_pressed: false,
        }
    }

    /// The motion that a key stands for, if any.
    pub fn motion(key: Key) -> (m: Option<Motion>)
        ensures
            m == motion_of(key),
    {
        match key {
            Key::W | Key::Up => Some(Motion::Forward),
            Key::S | Key::Down => Some(Motion::Backward),
            Key::A | Key::Left => Some(Motion::Left),
            Key::D | Key::Right => Some(Motion::Right),
            Key::Space => Some(Motion::Up),
            Key::LShift => Some(Motion::Down),
            Key::Escape | Key::Other => None,
        }
    }

    /// Takes a key press or release. A key that stands for a motion sets
    /// that motion held or not and is consumed; any other key changes
    /// nothing and is not consumed.
    pub fn process_keyboard(&mut self, key: Key, pressed: bool) -> (consumed: bool)
        ensures
            consumed == motion_of(key).is_some(),
            motion_of(key) matches Some(m) ==> *final(self) == old(self).with(m, pressed),
            motion_of(key).is_none() ==> *final(self) == *old(self),
    {
        match CameraController::motion(key) {
            Some(Motion::Forward) => {
                self.forward = pressed;
                true
            },
            Some(Motion::Backward) => {
                self.backward = pressed;
                true
            },
            Some(Motion::Left) => {
                self.left = pressed;
                true
            },
            Some(Motion::Right) => {
                self.right = pressed;
                true
            },
            Some(Motion::Up) => {
                self.up = pressed;
                true
            },
            Some(Motion::Down) => {
                self.down = pressed;
                true
            },
            None => false,
        }
    }

    /// Takes a press or release of a mouse button. The left button sets
    /// whether dragging turns the camera and is consumed; another button
    /// changes nothing.
    pub fn process_mouse_button(&mut self, left: bool, pressed: bool) -> (consumed: bool)
        ensures
            consumed == left,
            left ==> *final(self) == (CameraController { mouse_pressed: pressed, ..*old(self) }),
            !left ==> *final(self) == *old(self),
    {
        if left {
            self.mouse_pressed = pressed;
        }
        left
    }

    /// Does mouse motion turn the camera? Only while the button is down.
    pub fn rotates(&self) -> (yes: bool)
        ensures
            yes == self.mouse_pressed,
    {
        self.mouse_pressed
    }

    /// The direction of travel along the forward, right and up axes: for
    /// each, one if only the key towards it is held, minus one if only the
    /// key against it, zero if neither or both.
    pub fn travel(&self) -> (t: (i8, i8, i8))
        ensures
            t.0 == net(self.forward, self.backward),
            t.1 == net(self.right, self.left),
            t.2 == net(self.up, self.down),
    {
        (
            CameraController::axis(self.forward, self.backward),
            CameraController::axis(self.right, self.left),
            CameraController::axis(self.up, self.down),
        )
    }

    /// One axis of `travel`.
    pub fn axis(plus: bool, minus: bool) -> (a: i8)
        ensures
            a == net(plus, minus),
    {
        if plus && !minus {
            1
        } else if minus && !plus {
            -1
        } else {
            0
        }
    }
}

/// A key that is pressed and released again leaves the other motions as
/// they were and its own motion not held.
pub proof fn lemma_press_release(c: CameraController, m: Motion, other: Motion)
    ensures
        !c.with(m, true).with(m, false).held(m),
        c.with(m, true).held(m),
        other != m ==> c.with(m, true).held(other) == c.held(other),
        c.with(m, true).mouse_pressed == c.mouse_pressed,
{
}

} // verus!
