//! Normalizes a windowing protocol's raw input and lifecycle events into a
//! small, stable semantic event model: scan codes are mapped to physical key
//! codes, protocol key symbols to logical key symbols, modifier state is
//! tracked across key presses and releases of modifier-position keys, and
//! raw window/pointer events are translated into semantic events.

pub mod atom;
pub mod error;
pub mod event;
pub mod geometry;
pub mod key;
pub mod keyboard;
pub mod keymap;
pub mod mouse;
pub mod window;

pub use error::Error;
pub use event::Event;
pub use window::Window;
