//! Lighting control for a three-zone RGB keyboard, without the transport.
//!
//! The keyboard takes fixed eight-byte frames as HID feature reports. This
//! crate decides which frames an operation consists of, in which order they go
//! out, and what happens when the transport refuses one. It performs no I/O:
//! the caller transmits each frame and reports back how the transfer went.

pub mod color;
pub mod frame;
pub mod keyboard;
pub mod laws;
pub mod protocol;
pub mod session;

pub use color::Color;
pub use keyboard::{Action, IntoColorTuple, Keyboard};
pub use protocol::{Mode, Zone};
pub use session::{DeviceError, Event, Session};
