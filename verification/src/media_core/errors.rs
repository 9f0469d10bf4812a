use vstd::prelude::*;
use vstd::string::*;

verus! {

/// What can go wrong while a medium is opened, decoded or processed.
///
/// Each variant carries the text that describes the failure. Failures of the
/// decode engine, the vision library, the image codecs and the operating
/// system arrive as the text of their own error values.
#[derive(Debug, Clone)]
pub enum MediaError {
    Ffmpeg(String),
    OpenCV(String),
    Image(String),
    Audio(String),
    Video(String),
    Io(String),
    InvalidFormat(String),
    UnsupportedCodec(String),
    Pipeline(String),
    Config(String),
    ResourceNotFound(String),
}

impl MediaError {
    /// The text carried by the error, without the prefix of its variant.
    pub open spec fn detail(&self) -> Seq<char> {
        match self {
            MediaError::Ffmpeg(m) => m@,
            MediaError::OpenCV(m) => m@,
            MediaError::Image(m) => m@,
            MediaError::Audio(m) => m@,
            MediaError::Video(m) => m@,
            MediaError::Io(m) => m@,
            MediaError::InvalidFormat(m) => m@,
            MediaError::UnsupportedCodec(m) => m@,
            MediaError::Pipeline(m) => m@,
            MediaError::Config(m) => m@,
            MediaError::ResourceNotFound(m) => m@,
        }
    }

    /// The prefix under which each variant is reported.
    pub open spec fn prefix(&self) -> Seq<char> {
        match self {
            MediaError::Ffmpeg(_) => "FFmpeg error: "@,
            MediaError::OpenCV(_) => "OpenCV error: "@,
            MediaError::Image(_) => "Image processing error: "@,
            MediaError::Audio(_) => "Audio error: "@,
            MediaError::Video(_) => "Video error: "@,
            MediaError::Io(_) => "IO error: "@,
            MediaError::InvalidFormat(_) => "Invalid format: "@,
            MediaError::UnsupportedCodec(_) => "Unsupported codec: "@,
            MediaError::Pipeline(_) => "Pipeline error: "@,
            MediaError::Config(_) => "Configuration error: "@,
            MediaError::ResourceNotFound(_) => "Resource not found: "@,
        }
    }

    /// The full report: the variant's prefix followed by the carried text.
    pub fn message(&self) -> (text: String)
        ensures
            text@ == self.prefix() + self.detail(),
    {
        match self {
            MediaError::Ffmpeg(m) => String::from_str("FFmpeg error: ").concat(m.as_str()),
            MediaError::OpenCV(m) => String::from_str("OpenCV error: ").concat(m.as_str()),
            MediaError::Image(m) => String::from_str("Image processing error: ").concat(m.as_str()),
            MediaError::Audio(m) => String::from_str("Audio error: ").concat(m.as_str()),
            MediaError::Video(m) => String::from_str("Video error: ").concat(m.as_str()),
            MediaError::Io(m) => String::from_str("IO error: ").concat(m.as_str()),
            MediaError::InvalidFormat(m) => String::from_str("Invalid format: ").concat(m.as_str()),
            MediaError::UnsupportedCodec(m) => String::from_str("Unsupported codec: ").concat(
                m.as_str(),
            ),
            MediaError::Pipeline(m) => String::from_str("Pipeline error: ").concat(m.as_str()),
            MediaError::Config(m) => String::from_str("Configuration error: ").concat(m.as_str()),
            MediaError::ResourceNotFound(m) => String::from_str("Resource not found: ").concat(
                m.as_str(),
            ),
        }
    }
}

/// An error of the given variant is a pipeline error with the given text.
pub open spec fn is_pipeline_error(e: MediaError, text: Seq<char>) -> bool {
    e matches MediaError::Pipeline(m) && m@ == text
}

/// An error of the given variant is a video error with the given text.
pub open spec fn is_video_error(e: MediaError, text: Seq<char>) -> bool {
    e matches MediaError::Video(m) && m@ == text
}

} // verus!
