use crate::media_core::picture::formats::{extension_of_path, path_extension};
use crate::text::{lowercase_of, str_eq, to_lowercase};
use std::time::Duration;
use vstd::prelude::*;
use vstd::string::*;

verus! {

/// What kind of medium a file holds.
#[derive(Debug, Clone, Copy, PartialEq, Eq, Structural)]
pub enum MediaType {
    Video,
    Audio,
    Image,
    Unknown,
}

/// A frame rate as the container states it: frames per `denominator` seconds.
#[derive(Debug, Clone, Copy, PartialEq, Eq, Structural)]
pub struct FrameRate {
    pub numerator: i32,
    pub denominator: i32,
}

/// What is known of a medium once its container was read.
#[derive(Debug, Clone)]
pub struct MediaInfo {
    pub duration: Option<Duration>,
    pub width: Option<u32>,
    pub height: Option<u32>,
    pub fps: Option<FrameRate>,
    pub has_video: bool,
    pub has_audio: bool,
    pub video_codec: Option<String>,
    pub audio_codec: Option<String>,
    pub sample_rate: Option<u32>,
    pub channels: Option<u16>,
}

impl Default for MediaInfo {
    fn default() -> (info: Self)
        ensures
            info.duration is None,
            info.width is None,
            info.height is None,
            info.fps is None,
            !info.has_video,
            !info.has_audio,
            info.video_codec is None,
            info.audio_codec is None,
            info.sample_rate is None,
            info.channels is None,
    {
        Self {
            duration: None,
            width: None,
            height: None,
            fps: None,
            has_video: false,
            has_audio: false,
            video_codec: None,
            audio_codec: None,
            sample_rate: None,
            channels: None,
        }
    }
}

/// What kind of stream a container holds.
#[derive(Debug, Clone, Copy, PartialEq, Eq, Structural)]
pub enum StreamKind {
    Video,
    Audio,
    Other,
}

/// What a decoder says of a video stream.
#[derive(Debug, Clone)]
pub struct VideoParams {
    pub width: u32,
    pub height: u32,
    pub codec: Option<String>,
}

/// What a decoder says of an audio stream.
#[derive(Debug, Clone)]
pub struct AudioParams {
    pub sample_rate: u32,
    pub channels: u16,
    pub codec: Option<String>,
}

/// One stream of a container, as the decode engine reports it. The
/// parameters are there where a decoder could be set up for the stream.
#[derive(Debug, Clone)]
pub struct StreamSummary {
    pub kind: StreamKind,
    pub avg_frame_rate: FrameRate,
    pub video: Option<VideoParams>,
    pub audio: Option<AudioParams>,
}

impl MediaInfo {
    /// What is known of a medium before its streams are looked at.
    pub open spec fn blank(duration: Option<Duration>) -> MediaInfo {
        MediaInfo {
            duration,
            width: None,
            height: None,
            fps: None,
            has_video: false,
            has_audio: false,
            video_codec: None,
            audio_codec: None,
            sample_rate: None,
            channels: None,
        }
    }

    /// What is known after one more stream was looked at. A video stream
    /// states the frame rate, if its rate is positive, and size and codec,
    /// if it has parameters; an audio stream states rate, channels and
    /// codec, if it has parameters. What a stream does not state stays.
    pub open spec fn with_stream(self, stream: StreamSummary) -> MediaInfo {
        match stream.kind {
            StreamKind::Video => MediaInfo {
                has_video: true,
                fps: if stream.avg_frame_rate.numerator > 0 && stream.avg_frame_rate.denominator
                    > 0 {
                    Some(stream.avg_frame_rate)
                } else {
                    self.fps
                },
                width: match stream.video {
                    Some(params) => Some(params.width),
                    None => self.width,
                },
                height: match stream.video {
                    Some(params) => Some(params.height),
                    None => self.height,
                },
                video_codec: match stream.video {
                    Some(params) => params.codec,
                    None => self.video_codec,
                },
                ..self
            },
            StreamKind::Audio => MediaInfo {
                has_audio: true,
                sample_rate: match stream.audio {
                    Some(params) => Some(params.sample_rate),
                    None => self.sample_rate,
                },
                channels: match stream.audio {
                    Some(params) => Some(params.channels),
                    None => self.channels,
                },
                audio_codec: match stream.audio {
                    Some(params) => params.codec,
                    None => self.audio_codec,
                },
                ..self
            },
            StreamKind::Other => self,
        }
    }

    /// What is known after the first `count` streams were looked at.
    pub open spec fn with_streams(self, streams: Seq<StreamSummary>, count: nat) -> MediaInfo
        decreases count,
    {
        if count == 0 {
            self
        } else {
            self.with_streams(streams, (count - 1) as nat).with_stream(streams[count - 1])
        }
    }

    /// Gathers what the streams of a container say of the medium, each
    /// stream in turn; a later stream overrides an earlier one.
    pub fn extract_media_info(duration: Option<Duration>, streams: Vec<StreamSummary>) -> (info:
        MediaInfo)
        ensures
            info == Self::blank(duration).with_streams(streams@, streams@.len()),
    {
        let mut info = MediaInfo {
            duration,
            width: None,
            height: None,
            fps: None,
            has_video: false,
            has_audio: false,
            video_codec: None,
            audio_codec: None,
            sample_rate: None,
            channels: None,
        };
        let ghost all = streams@;
        for stream in it: streams
            invariant
                it.seq() == all,
                info == Self::blank(duration).with_streams(all, it.index() as nat),
        {
            match stream.kind {
                StreamKind::Video => {
                    info.has_video = true;
                    if stream.avg_frame_rate.numerator > 0 && stream.avg_frame_rate.denominator
                        > 0 {
                        info.fps = Some(stream.avg_frame_rate);
                    }
                    if let Some(params) = stream.video {
                        info.width = Some(params.width);
                        info.height = Some(params.height);
                        info.video_codec = params.codec;
                    }
                },
                StreamKind::Audio => {
                    info.has_audio = true;
                    if let Some(params) = stream.audio {
                        info.sample_rate = Some(params.sample_rate);
                        info.channels = Some(params.channels);
                        info.audio_codec = params.codec;
                    }
                },
                StreamKind::Other => {},
            }
        }
        info
    }
}

/// An opened medium as the pipeline sees it: where it came from, what it
/// holds, and which of its streams the decode engine picked as the best video
/// and audio stream.
#[derive(Debug, Clone)]
pub struct MediaFile {
    pub path: String,
    pub media_type: MediaType,
    pub info: MediaInfo,
    pub video_stream: Option<usize>,
    pub audio_stream: Option<usize>,
}

/// The kind of a medium, from the streams it has: video wins over audio.
pub open spec fn media_type_of(has_video: bool, has_audio: bool) -> MediaType {
    if has_video {
        MediaType::Video
    } else if has_audio {
        MediaType::Audio
    } else {
        MediaType::Unknown
    }
}

impl MediaFile {
    /// Describes an opened medium. Its kind follows from `info`.
    pub fn open(
        path: String,
        info: MediaInfo,
        video_stream: Option<usize>,
        audio_stream: Option<usize>,
    ) -> (file: Self)
        ensures
            file.path == path,
            file.info == info,
            file.video_stream == video_stream,
            file.audio_stream == audio_stream,
            file.media_type == media_type_of(info.has_video, info.has_audio),
    {
        let media_type = Self::determine_media_type(&info);
        MediaFile { path, media_type, info, video_stream, audio_stream }
    }

    /// The kind of medium that `info` describes.
    pub fn determine_media_type(info: &MediaInfo) -> (kind: MediaType)
        ensures
            kind == media_type_of(info.has_video, info.has_audio),
    {
        if info.has_video && info.has_audio {
            MediaType::Video
        } else if info.has_video {
            MediaType::Video
        } else if info.has_audio {
            MediaType::Audio
        } else {
            MediaType::Unknown
        }
    }

    /// The index of the best video stream, if the medium has one.
    pub fn video_stream(&self) -> (index: Option<usize>)
        ensures
            index == self.video_stream,
    {
        self.video_stream
    }

    /// The index of the best audio stream, if the medium has one.
    pub fn audio_stream(&self) -> (index: Option<usize>)
        ensures
            index == self.audio_stream,
    {
        self.audio_stream
    }
}

/// A lower-case file extension is one of a still picture.
pub open spec fn is_image_extension(ext: Seq<char>) -> bool {
    ext == "jpg"@ || ext == "jpeg"@ || ext == "png"@ || ext == "bmp"@ || ext == "gif"@ || ext
        == "webp"@ || ext == "tiff"@ || ext == "tif"@
}

/// Whether a lower-case file extension is one of a still picture.
pub fn is_image_extension_lowercase(ext: &str) -> (yes: bool)
    ensures
        yes == is_image_extension(ext@),
{
    str_eq(ext, "jpg") || str_eq(ext, "jpeg") || str_eq(ext, "png") || str_eq(ext, "bmp")
        || str_eq(ext, "gif") || str_eq(ext, "webp") || str_eq(ext, "tiff") || str_eq(ext, "tif")
}

/// Whether a path names a still picture, by its extension in any case of
/// letters.
pub fn is_image_file(path: &str) -> (yes: bool)
    ensures
        yes == match extension_of_path(path@) {
            Some(ext) => is_image_extension(lowercase_of(ext)),
            None => false,
        },
{
    match path_extension(path) {
        Some(ext) => {
            let lower = to_lowercase(ext.as_str());
            is_image_extension_lowercase(lower.as_str())
        },
        None => false,
    }
}

} // verus!
