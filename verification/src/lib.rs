//! Interactive screen-region selection: the state machine, frame geometry,
//! and scheduling logic behind a transparent full-desktop capture overlay.

pub mod controller;
pub mod display;
pub mod geom;
pub mod icon;
pub mod platform;
pub mod render;
pub mod sched;
pub mod selection;
pub mod text;
