//! Streams raw RGBA frames to an `ffmpeg` child process.
//!
//! The library holds everything that can be decided without touching the
//! operating system: how a pixel is packed, which command line launches the
//! encoder, which bytes a frame puts on the pipe, and how the outcomes of
//! the launch, of each write and of the wait turn into results. The caller
//! owns the process and the pipe and hands the outcomes in as plain values.

pub mod color;
pub mod command;
pub mod decimal;
pub mod error;
pub mod frame;
pub mod session;

pub use color::{get_channels, get_color, Color};
pub use command::{arguments, program};
pub use error::{Error, ExitStatus, Result};
pub use frame::serialize_frame;
pub use session::{start, FFMpeg};
