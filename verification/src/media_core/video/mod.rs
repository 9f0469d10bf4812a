//! Decoded video frames.

pub mod decoder;
pub mod frame;

pub use decoder::VideoDecoder;
pub use frame::{FrameFormat, VideoFrame};
