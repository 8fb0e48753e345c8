//! Decoder for the 9-byte measurement frames of a single-point
//! time-of-flight distance sensor.

pub mod driver;
pub mod error;
pub mod frame;

pub use driver::{complete_read, ByteSource, TfMini};
pub use error::FrameError;
pub use frame::Frame;
