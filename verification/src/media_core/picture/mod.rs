//! Pictures: formats, colour types and how a file's format is told.

pub mod formats;
pub mod processor;
pub mod raster;

use vstd::prelude::*;

pub use formats::{ColorType, FormatDetector, ImageMetadata, SupportedImageFormat};
pub use processor::{
    ColorProfile, ImageProcessor, ImageProcessorConfig, ImageQuality, ResizeAlgorithm,
};
pub use raster::{PixelLayout, RasterImage};

verus! {

/// The format that the image codecs take a path to name, by its extension.
pub uninterp spec fn guessed_format(path: Seq<char>) -> Option<image::ImageFormat>;

/// `ImageFormat::from_path` of the image crate: the format that the
/// extension of the path stands for, if it stands for one. The file is not
/// looked at.
#[verifier::external_body]
pub fn guess_format(path: &str) -> (format: Option<image::ImageFormat>)
    ensures
        format == guessed_format(path@),
{
    image::ImageFormat::from_path(path).ok()
}

/// Whether the image codecs know a format for the extension of the path.
pub fn is_supported_format(path: &str) -> (yes: bool)
    ensures
        yes == guessed_format(path@) is Some,
{
    guess_format(path).is_some()
}

} // verus!
