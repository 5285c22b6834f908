//! What the frame loop decides: which window events the camera consumes,
//! what the others ask for, and when a frame rate is due.

use crate::camera::{CameraController, Key, Projection};
use vstd::prelude::*;

verus! {

/// A window event, reduced to what the decisions depend on.
#[derive(Clone, Copy, Debug, PartialEq, Eq, Structural)]
pub enum WindowEvent {
    /// A key went down or up; `key` is `None` where the key has no code.
    Keyboard { key: Option<Key>, pressed: bool },
    /// The wheel turned.
    MouseWheel,
    /// A mouse button went down or up.
    MouseButton { left: bool, pressed: bool },
    /// The window is asked to close.
    CloseRequested,
    /// The window has a new size in pixels.
    Resized { width: u32, height: u32 },
    /// The scale factor changed; the size is the new inner size.
    ScaleFactorChanged { width: u32, height: u32 },
    /// Anything else.
    Other,
}

/// What the frame loop does next.
#[derive(Clone, Copy, Debug, PartialEq, Eq, Structural)]
pub enum Action {
    /// Nothing more.
    Nothing,
    /// Hand the wheel's delta to the camera.
    Scroll,
    /// Reconfigure the surface for this size.
    Resize { width: u32, height: u32 },
    /// Leave the loop.
    Exit,
}

/// How an attempt to render a frame ended.
#[derive(Clone, Copy, Debug, PartialEq, Eq, Structural)]
pub enum RenderOutcome {
    Presented,
    SurfaceLost,
    OutOfMemory,
    OtherError,
}

/// Does the camera consume the event? Keys that stand for a motion, the
/// wheel and the left mouse button.
pub open spec fn consumed(event: WindowEvent) -> bool {
    match event {
        WindowEvent::Keyboard { key: Some(k), .. } => crate::camera::motion_of(k).is_some(),
        WindowEvent::MouseWheel => true,
        WindowEvent::MouseButton { left, .. } => left,
        _ => false,
    }
}

/// The controller after the event.
pub open spec fn controller_after(c: CameraController, event: WindowEvent) -> CameraController {
    match event {
        WindowEvent::Keyboard { key: Some(k), pressed } => match crate::camera::motion_of(k) {
            Some(m) => c.with(m, pressed),
            None => c,
        },
        WindowEvent::MouseButton { left: true, pressed } => CameraController {
            mouse_pressed: pressed,
            ..c
        },
        _ => c,
    }
}

/// What an event asks of the frame loop: the wheel a scroll; closing the
/// window or pressing escape the exit; a new size of which neither side is
/// zero a resize; all else nothing.
pub open spec fn action_of(event: WindowEvent) -> Action {
    match event {
        WindowEvent::MouseWheel => Action::Scroll,
        WindowEvent::CloseRequested => Action::Exit,
        WindowEvent::Keyboard { key: Some(Key::Escape), pressed: true } => Action::Exit,
        WindowEvent::Resized { width, height } => if width > 0 && height > 0 {
            Action::Resize { width, height }
        } else {
            Action::Nothing
        },
        WindowEvent::ScaleFactorChanged { width, height } => if width > 0 && height > 0 {
            Action::Resize { width, height }
        } else {
            Action::Nothing
        },
        _ => Action::Nothing,
    }
}

/// What the frame loop keeps between events, as far as decisions rest on
/// it: the size that the surface is configured for, the viewport and the
/// camera controller.
#[derive(Clone, Copy, Debug, PartialEq, Eq, Structural)]
pub struct State {
    pub width: u32,
    pub height: u32,
    pub projection: Projection,
    pub camera_controller: CameraController,
}

/// The state after a resize: a size of which neither side is zero becomes
/// the size of the surface and of the viewport, any other changes nothing.
pub open spec fn resized(s: State, width: u32, height: u32) -> State {
    if width > 0 && height > 0 {
        State { width, height, projection: Projection { width, height, ..s.projection }, ..s }
    } else {
        s
    }
}

/// The state after a window event: the controller takes what it consumes,
/// and a new size is taken over.
pub open spec fn state_after(s: State, event: WindowEvent) -> State {
    let taken = State { camera_controller: controller_after(s.camera_controller, event), ..s };
    match event {
        WindowEvent::Resized { width, height } => resized(taken, width, height),
        WindowEvent::ScaleFactorChanged { width, height } => resized(taken, width, height),
        _ => taken,
    }
}

impl State {
    /// The state at start: a surface and viewport of the given size, the
    /// given lens, nothing held.
    pub fn new(width: u32, height: u32, fovy: u32, znear: u32, zfar: u32) -> (s: State)
        ensures
            s.width == width,
            s.height == height,
            s.projection == (Projection { width, height, fovy, znear, zfar }),
            forall|m: crate::camera::Motion| !s.camera_controller.held(m),
            !s.camera_controller.mouse_pressed,
    {
        State {
            width,
            height,
            projection: Projection::new(width, height, fovy, znear, zfar),
            camera_controller: CameraController::new(),
        }
    }

    /// Takes a new size for surface and viewport and says whether the
    /// surface is to be configured anew. A size with a side of zero
    /// changes nothing.
    pub fn resize(&mut self, width: u32, height: u32) -> (configure: bool)
        ensures
            configure == (width > 0 && height > 0),
            *final(self) == resized(*old(self), width, height),
            old(self).projection.valid() ==> final(self).projection.valid(),
    {
        if Projection::accepts(width, height) {
            self.width = width;
            self.height = height;
            self.projection.resize(width, height);
            true
        } else {
            false
        }
    }

    /// Hands an event to the camera controller and says whether it was
    /// consumed.
    pub fn input(&mut self, event: WindowEvent) -> (taken: bool)
        ensures
            taken == consumed(event),
            *final(self) == (State {
                camera_controller: controller_after(old(self).camera_controller, event),
                ..*old(self)
            }),
    {
        match event {
            WindowEvent::Keyboard { key: Some(k), pressed } => {
                self.camera_controller.process_keyboard(k, pressed)
            },
            WindowEvent::MouseWheel => true,
            WindowEvent::MouseButton { left, pressed } => {
                self.camera_controller.process_mouse_button(left, pressed)
            },
            _ => false,
        }
    }

    /// Takes one window event: the camera controller first, and what it
    /// does not consume is looked at for an exit or a resize.
    pub fn handle_event(&mut self, event: WindowEvent) -> (action: Action)
        ensures
            action == action_of(event),
            *final(self) == state_after(*old(self), event),
    {
        if self.input(event) {
            match event {
                WindowEvent::MouseWheel => Action::Scroll,
                _ => Action::Nothing,
            }
        } else {
            match event {
                WindowEvent::CloseRequested => Action::Exit,
                WindowEvent::Keyboard { key: Some(Key::Escape), pressed: true } => Action::Exit,
                WindowEvent::Resized { width, height } => self.resize_action(width, height),
                WindowEvent::ScaleFactorChanged { width, height } => self.resize_action(
                    width,
                    height,
                ),
                _ => Action::Nothing,
            }
        }
    }

    /// Takes a new size and asks for the surface to be configured, or
    /// does nothing while a side is zero.
    pub fn resize_action(&mut self, width: u32, height: u32) -> (action: Action)
        ensures
            action == if width > 0 && height > 0 {
                Action::Resize { width, height }
            } else {
                Action::Nothing
            },
            *final(self) == resized(*old(self), width, height),
    {
        if self.resize(width, height) {
            Action::Resize { width, height }
        } else {
            Action::Nothing
        }
    }

    /// What follows an attempt to render: a lost surface is configured
    /// anew at its size, running out of memory ends the loop, and any
    /// other outcome is left for the next frame. The state stays as it
    /// is.
    pub fn after_render(&self, outcome: RenderOutcome) -> (action: Action)
        ensures
            action == match outcome {
                RenderOutcome::SurfaceLost => if self.width > 0 && self.height > 0 {
                    Action::Resize { width: self.width, height: self.height }
                } else {
                    Action::Nothing
                },
                RenderOutcome::OutOfMemory => Action::Exit,
                _ => Action::Nothing,
            },
    {
        match outcome {
            RenderOutcome::SurfaceLost => {
                if Projection::accepts(self.width, self.height) {
                    Action::Resize { width: self.width, height: self.height }
                } else {
                    Action::Nothing
                }
            },
            RenderOutcome::OutOfMemory => Action::Exit,
            _ => Action::Nothing,
        }
    }
}

/// No event makes a valid viewport invalid, and an event that asks for no
/// resize leaves size and viewport as they are.
pub proof fn lemma_events_keep_viewport(s: State, event: WindowEvent)
    ensures
        s.projection.valid() ==> state_after(s, event).projection.valid(),
        !(action_of(event) matches Action::Resize { .. }) ==> {
            &&& state_after(s, event).projection == s.projection
            &&& state_after(s, event).width == s.width
            &&& state_after(s, event).height == s.height
        },
        action_of(event) matches Action::Resize { width, height } ==> {
            &&& state_after(s, event).width == width
            &&& state_after(s, event).height == height
            &&& state_after(s, event).projection.aspect() == (width as int, height as int)
        },
{
}

/// What the camera consumes asks for nothing but, for the wheel, a
/// scroll; and only what it consumes changes the controller.
pub proof fn lemma_consumed_events(s: State, event: WindowEvent)
    ensures
        consumed(event) ==> action_of(event) == Action::Nothing || action_of(event)
            == Action::Scroll,
        !consumed(event) ==> state_after(s, event).camera_controller == s.camera_controller,
{
}

/// Nanoseconds in a second.
pub const SECOND: u64 = 1_000_000_000;

/// Frames and time since the frame rate was last reported.
#[derive(Clone, Copy, Debug, PartialEq, Eq, Structural)]
pub struct FrameCounter {
    pub frames: u64,
    pub elapsed: u64,
}

impl FrameCounter {
    /// A counter at zero.
    pub fn new() -> (c: FrameCounter)
        ensures
            c.frames == 0,
            c.elapsed == 0,
    {
        FrameCounter { frames: 0, elapsed: 0 }
    }

    /// Counts one frame that took `dt` nanoseconds. Once a second or more
    /// has been counted, the frames and the time they took are handed out
    /// and the counter starts again at zero. Both counts stop at the
    /// largest number they can hold.
    pub fn tick(&mut self, dt: u64) -> (report: Option<(u64, u64)>)
        ensures
            ({
                let frames = if old(self).frames < u64::MAX {
                    old(self).frames + 1
                } else {
                    u64::MAX as int
                };
                let elapsed = if old(self).elapsed + dt <= u64::MAX {
                    old(self).elapsed + dt
                } else {
                    u64::MAX as int
                };
                if elapsed >= SECOND {
                    &&& report == Some((frames as u64, elapsed as u64))
                    &&& final(self).frames == 0
                    &&& final(self).elapsed == 0
                } else {
                    &&& report.is_none()
                    &&& final(self).frames == frames
                    &&& final(self).elapsed == elapsed
                }
            }),
    {
        let frames: u64 = self.frames.saturating_add(1);
        let elapsed: u64 = self.elapsed.saturating_add(dt);
        if elapsed >= SECOND {
            self.frames = 0;
            self.elapsed = 0;
            Some((frames, elapsed))
        } else {
            self.frames = frames;
            self.elapsed = elapsed;
            None
        }
    }
}

} // verus!
