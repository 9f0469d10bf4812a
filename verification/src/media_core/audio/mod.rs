//! Decoded audio: sample formats, frames and stream descriptions.

pub mod decoder;
pub mod frame;

pub use decoder::{AudioDecoder, AudioStreamInfo};
pub use frame::{AudioFormat, AudioFrame};
