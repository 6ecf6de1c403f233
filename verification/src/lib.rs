//! A driver for VirtIO GPU devices.
//!
//! The driver is [`VirtIOGpu`]. It reaches its device through a [`transport::Transport`], which
//! keeps a history of everything that it was asked for; the contract of each driver call says what
//! the call adds to that history and what it returns for each answer of the device.
//!
//! Where to look:
//!
//! - [`driver`]: the driver and its calls;
//! - [`request`]: what a call with a single command sends, and what it makes of the reply;
//! - [`plan`]: the steps of a call with more than one;
//! - [`laws`]: what follows for such calls as a whole;
//! - [`wire`] and [`bytes`]: how messages are laid out, and that they read back as written;
//! - [`header`], [`display`], [`resource`], [`context`], [`blob`], [`cursor`]: the messages;
//! - [`transport`] and [`dma`]: what the driver needs from its surroundings;
//! - [`replay`]: a transport without a device;
//! - [`text`]: what is assumed of the formatter of the standard library.
pub mod blob;
pub mod bytes;
pub mod command;
pub mod config;
pub mod context;
pub mod cursor;
pub mod display;
pub mod dma;
pub mod driver;
pub mod edid;
pub mod error;
pub mod header;
pub mod laws;
pub mod plan;
pub mod replay;
pub mod request;
pub mod resource;
pub mod text;
pub mod transport;
pub mod wire;

pub use crate::command::Command;
pub use crate::config::{Config, Features};
pub use crate::display::Rect;
pub use crate::driver::VirtIOGpu;
pub use crate::edid::Edid;
pub use crate::error::Error;
pub use crate::header::CtrlHeader;
