//! Media descriptions, frames and the frame-prefetch pipeline.

pub mod audio;
pub mod errors;
pub mod picture;
pub mod media;
pub mod pipeline;
pub mod video;

pub use errors::MediaError;
pub use media::{MediaFile, MediaInfo, MediaType};
pub use pipeline::{Pipeline, PipelineBuilder};
