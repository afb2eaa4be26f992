//! Decisions of the frame loop: what a key does at the window level, when a
//! resize takes effect, and how the loop recovers from a failed frame.
use vstd::prelude::*;

use crate::camera::{Axis, Key};

verus! {

/// The smallest width or height that reconfiguring the surface accepts is
/// one more than this.
pub const MIN_SURFACE_EXTENT: u32 = 1;

/// The drawable size of the window, in physical pixels.
#[derive(Clone, Copy, Debug, PartialEq, Eq, Structural)]
pub struct WindowSize {
    pub width: u32,
    pub height: u32,
}

/// Whether a size may be applied to the surface.
pub open spec fn accepts_size(width: u32, height: u32) -> bool {
    width > MIN_SURFACE_EXTENT && height > MIN_SURFACE_EXTENT
}

impl WindowSize {
    pub fn new(width: u32, height: u32) -> (r: WindowSize)
        ensures
            r.width == width,
            r.height == height,
    {
        WindowSize { width, height }
    }

    /// Takes `width` x `height` as the new size when both exceed
    /// [`MIN_SURFACE_EXTENT`]; otherwise nothing changes. Returns whether the
    /// size was taken, so that the caller knows to rebuild what depends on it.
    pub fn resize(&mut self, width: u32, height: u32) -> (r: bool)
        ensures
            r == accepts_size(width, height),
            *final(self) == (if r {
                WindowSize { width, height }
            } else {
                *old(self)
            }),
    {
        if width > MIN_SURFACE_EXTENT && height > MIN_SURFACE_EXTENT {
            self.width = width;
            self.height = height;
            true
        } else {
            false
        }
    }
}

/// Why acquiring the next image of the surface failed.
#[derive(Clone, Copy, Debug, PartialEq, Eq, Structural)]
pub enum SurfaceFault {
    Timeout,
    Outdated,
    Lost,
    OutOfMemory,
}

/// What the loop does after a failed frame.
#[derive(Clone, Copy, Debug, PartialEq, Eq, Structural)]
pub enum Recovery {
    /// Reconfigure the surface at its current size, then go on.
    Reconfigure,
    /// Stop the loop: the failure cannot be recovered from.
    Exit,
    /// Report the failure, drop the frame and go on.
    Skip,
}

impl SurfaceFault {
    /// A lost surface is reconfigured, running out of memory ends the loop,
    /// and any other failure drops the frame.
    pub fn recovery(&self) -> (r: Recovery)
        ensures
            r == (match *self {
                SurfaceFault::Lost => Recovery::Reconfigure,
                SurfaceFault::OutOfMemory => Recovery::Exit,
                _ => Recovery::Skip,
            }),
    {
        match self {
            SurfaceFault::Lost => Recovery::Reconfigure,
            SurfaceFault::OutOfMemory => Recovery::Exit,
            _ => Recovery::Skip,
        }
    }
}

/// What a key does at the window level.
#[derive(Clone, Copy, Debug, PartialEq, Eq, Structural)]
pub enum KeyAction {
    /// End the loop.
    Exit,
    /// Make the axis the camera's up direction.
    SetUpAxis(Axis),
    /// The frame-rate display was switched on or off.
    ToggledFrameRate,
    /// Nothing to do.
    Ignored,
}

/// Whether the window title shows the frame rates at start.
pub const FRAME_RATE_SHOW_DEFAULT: bool = true;

/// Window-level state of the loop: whether the title shows frame rates.
pub struct Window {
    show_frame_rate: bool,
}

impl Window {
    /// Whether the title shows frame rates.
    pub closed spec fn shows_frame_rate_spec(&self) -> bool {
        self.show_frame_rate
    }

    pub fn new() -> (r: Window)
        ensures
            r.shows_frame_rate_spec() == FRAME_RATE_SHOW_DEFAULT,
    {
        Window { show_frame_rate: FRAME_RATE_SHOW_DEFAULT }
    }

    pub fn shows_frame_rate(&self) -> (r: bool)
        ensures
            r == self.shows_frame_rate_spec(),
    {
        self.show_frame_rate
    }

    /// Handles a key that the camera controller left alone. Only presses
    /// count: Escape ends the loop, F switches the frame-rate display, and
    /// Up, Left and Right make Y, X and Z the up axis.
    pub fn handle_key(&mut self, key: Key, pressed: bool) -> (r: KeyAction)
        ensures
            r == (if !pressed {
                KeyAction::Ignored
            } else {
                match key {
                    Key::Escape => KeyAction::Exit,
                    Key::F => KeyAction::ToggledFrameRate,
                    Key::Up => KeyAction::SetUpAxis(Axis::Y),
                    Key::Left => KeyAction::SetUpAxis(Axis::X),
                    Key::Right => KeyAction::SetUpAxis(Axis::Z),
                    _ => KeyAction::Ignored,
                }
            }),
            final(self).shows_frame_rate_spec() == (if r == KeyAction::ToggledFrameRate {
                !old(self).shows_frame_rate_spec()
            } else {
                old(self).shows_frame_rate_spec()
            }),
    {
        if !pressed {
            return KeyAction::Ignored;
        }
        match key {
            Key::Escape => KeyAction::Exit,
            Key::F => {
                self.show_frame_rate = !self.show_frame_rate;
                KeyAction::ToggledFrameRate
            },
            Key::Up => KeyAction::SetUpAxis(Axis::Y),
            Key::Left => KeyAction::SetUpAxis(Axis::X),
            Key::Right => KeyAction::SetUpAxis(Axis::Z),
            _ => KeyAction::Ignored,
        }
    }
}

} // verus!
