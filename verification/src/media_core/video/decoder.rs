//! What a video decoder keeps between packets.

use crate::media_core::errors::MediaError;
use crate::media_core::media::MediaFile;
use vstd::prelude::*;
use vstd::string::*;

verus! {

/// The book-keeping of a video decoder: which stream it decodes and how many
/// frames it has given. The decoding is done by the decode engine.
pub struct VideoDecoder {
    stream_index: usize,
    width: u32,
    height: u32,
    frame_count: u64,
}

/// The decoder as contracts see it.
pub struct VideoDecoderState {
    pub stream_index: usize,
    pub width: u32,
    pub height: u32,
    pub frame_count: nat,
}

impl View for VideoDecoder {
    type V = VideoDecoderState;

    closed spec fn view(&self) -> VideoDecoderState {
        VideoDecoderState {
            stream_index: self.stream_index,
            width: self.width,
            height: self.height,
            frame_count: self.frame_count as nat,
        }
    }
}

/// The time stamp of a frame: the one it carries, or zero where it carries
/// none.
pub fn pts_or_zero(pts: Option<i64>) -> (stamp: i64)
    ensures
        stamp == match pts {
            Some(value) => value,
            None => 0,
        },
{
    match pts {
        Some(value) => value,
        None => 0,
    }
}

impl VideoDecoder {
    /// A decoder for the best video stream of a medium, which must have
    /// one. `width` and `height` are what the decode engine says of the
    /// stream.
    pub fn new(media_file: &MediaFile, width: u32, height: u32) -> (result: Result<
        Self,
        MediaError,
    >)
        ensures
            match media_file.video_stream {
                Some(index) => result matches Ok(decoder) && decoder@ == (VideoDecoderState {
                    stream_index: index,
                    width,
                    height,
                    frame_count: 0,
                }),
                None => result matches Err(MediaError::Video(m)) && m@ == "No video stream found"@,
            },
    {
        match media_file.video_stream {
            Some(index) => Ok(VideoDecoder { stream_index: index, width, height, frame_count: 0 }),
            None => Err(MediaError::Video(String::from_str("No video stream found"))),
        }
    }

    /// Whether a packet of the given stream is for this decoder. Packets of
    /// other streams give no frame and are not decoded.
    pub fn accepts(&self, packet_stream: usize) -> (yes: bool)
        ensures
            yes == (packet_stream == self@.stream_index),
    {
        packet_stream == self.stream_index
    }

    /// Counts a frame that the decoder has given.
    pub fn count_frame(&mut self)
        ensures
            final(self)@ == (VideoDecoderState {
                frame_count: if old(self)@.frame_count < u64::MAX {
                    old(self)@.frame_count + 1
                } else {
                    old(self)@.frame_count
                },
                ..old(self)@
            }),
    {
        self.frame_count = self.frame_count.saturating_add(1);
    }

    pub fn stream_index(&self) -> (index: usize)
        ensures
            index == self@.stream_index,
    {
        self.stream_index
    }

    pub fn width(&self) -> (width: u32)
        ensures
            width == self@.width,
    {
        self.width
    }

    pub fn height(&self) -> (height: u32)
        ensures
            height == self@.height,
    {
        self.height
    }

    pub fn frame_count(&self) -> (count: u64)
        ensures
            count == self@.frame_count,
    {
        self.frame_count
    }
}

} // verus!
