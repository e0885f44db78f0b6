//! Raw-mode terminal layer for a screen-oriented program: the usable screen
//! geometry, the escape sequences that draw on it, the classification of typed
//! keys, and the life cycle of the raw-mode session.
//!
//! Nothing here touches the device. Every drawing operation returns the bytes
//! that belong on the output stream, and every decision that depends on the
//! device takes the device's answer as a plain value.

pub mod geometry;
pub mod key;
pub mod sequence;
pub mod terminal;

pub use crate::geometry::{Position, Size};
pub use crate::key::Key;
pub use crate::sequence::Rgb;
pub use crate::terminal::{Terminal, TerminalError};
