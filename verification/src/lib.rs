//! A borderless full-screen overlay that dims every connected display along a
//! black-body color-temperature ramp, driven entirely by keyboard shortcuts.
//!
//! The crate holds the two parts worth reasoning about: the pure
//! temperature-to-color converter and the multi-window event-loop controller
//! with its graceful-then-forced shutdown protocol. The platform layer that
//! owns the native windows feeds events in and carries the returned actions
//! out.

pub mod color;
pub mod controller;
pub mod laws;

pub use color::Color;
pub use color::convert;
pub use controller::Action;
pub use controller::Controller;
pub use controller::Event;
pub use controller::Key;
pub use controller::ShutdownPhase;
pub use controller::WindowRecord;
