//! Camera control systems: per-frame update routines that consume window and
//! device events, track window focus and cursor visibility, and decide how
//! the spatial state of camera entities changes.
//!
//! Five systems cooperate through two small shared resources and a broadcast
//! event log: a focus tracker, a cursor-hide latch, a free-rotation pass, a
//! free-movement pass, and an arc-ball pass that keeps an orbiting camera at
//! a fixed distance from its target.
//!
//! Scalar payloads (translations, orientations, motion deltas, sensitivities)
//! are carried as IEEE-754 bit patterns in plain integers; the systems decide
//! which entities are touched, in what order, and with which payloads, while
//! the numeric kernel that combines the payloads runs outside the library,
//! one returned action at a time.

pub mod arc_ball;
pub mod cursor;
pub mod events;
pub mod focus;
pub mod movement;
pub mod resources;
pub mod rotation;
pub mod store;

pub use arc_ball::build_arc_ball_rotation_system;
pub use cursor::build_cursor_hide_system;
pub use focus::build_mouse_focus_update_system;
pub use movement::build_fly_movement_system;
pub use resources::{HideCursor, WindowFocus};
pub use rotation::build_free_rotation_system;
pub use store::ArcBallControl;
