//! Frame-loop state of a real-time renderer: timing, frame statistics,
//! camera input state, the instance grid and the loop's recovery decisions.

pub mod camera;
pub mod frame;
pub mod history;
pub mod instance;
pub mod stats;
pub mod time;
pub mod window;

pub use camera::{Axis, CameraController, Key, MovePlan};
pub use frame::Frame;
pub use history::History;
pub use instance::{grid, Instance, Rotation};
pub use stats::{FrameHistory, FrameTimer, RateHistory};
pub use time::{Clock, Timestamp};
pub use window::{KeyAction, Recovery, SurfaceFault, Window, WindowSize};
