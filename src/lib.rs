//! Translation of a native windowing library's raw input stream into a
//! framework-neutral, ordered stream of input events.

pub mod keyboard;
pub mod mouse;
pub mod event;
pub mod translator;
pub mod window;
pub mod laws;
