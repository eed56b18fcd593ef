//! A menubar/tray window controller: the decision core of a desktop shell
//! that keeps one primary window hidden by default and toggles it from a
//! tray icon.
//!
//! The library is pure: each handler takes the host's fresh readings (window
//! visibility, the tray icon's click rectangle, the window's outer size) and
//! returns the [`controller::Action`] the host must perform. The host wiring
//! that owns the event loop and the window handle lives outside the library.

pub mod controller;
pub mod geometry;
pub mod laws;
