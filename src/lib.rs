//! Configuration and event logic of a window-bound GPU surface that is
//! cleared to one color each frame.
//!
//! The library decides; the caller performs. It chooses the surface format,
//! builds and keeps the surface configuration, says what each frame draws,
//! and runs the controller's state machine that turns window events into
//! actions. Creating windows, requesting GPU devices and submitting work stay
//! with the caller.
pub mod format;
pub mod surface;
pub mod controller;
