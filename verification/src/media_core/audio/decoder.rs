use crate::media_core::audio::frame::AudioFormat;
use crate::media_core::errors::MediaError;
use crate::media_core::media::MediaFile;
use std::time::Duration;
use vstd::prelude::*;
use vstd::string::*;

verus! {

/// What a container says of one of its audio streams.
#[derive(Debug, Clone)]
pub struct AudioStreamInfo {
    pub index: usize,
    pub codec_name: String,
    pub sample_rate: u32,
    pub channels: u16,
    pub sample_format: AudioFormat,
    pub duration: Option<Duration>,
    pub bit_rate: Option<i64>,
}

/// The bit rate of a stream as it is reported: only a rate above zero is
/// one.
pub open spec fn reported_bit_rate(bit_rate: i64) -> Option<i64> {
    if bit_rate > 0 {
        Some(bit_rate)
    } else {
        None
    }
}

impl AudioStreamInfo {
    /// Describes a stream from what the decode engine read of it. A bit
    /// rate that is not above zero is left out.
    pub fn from_stream(
        index: usize,
        codec_name: String,
        sample_rate: u32,
        channels: u16,
        sample_format: AudioFormat,
        duration: Option<Duration>,
        bit_rate: i64,
    ) -> (info: Self)
        ensures
            info == (AudioStreamInfo {
                index,
                codec_name,
                sample_rate,
                channels,
                sample_format,
                duration,
                bit_rate: reported_bit_rate(bit_rate),
            }),
    {
        let bit_rate = if bit_rate > 0 {
            Some(bit_rate)
        } else {
            None
        };
        AudioStreamInfo { index, codec_name, sample_rate, channels, sample_format, duration, bit_rate }
    }
}

/// The book-keeping of an audio decoder: which stream it decodes, at what
/// rate and with how many channels, and how many frames it has given. The
/// decoding is done by the decode engine.
pub struct AudioDecoder {
    stream_index: usize,
    sample_rate: u32,
    channels: u16,
    frame_count: u64,
}

/// The decoder as contracts see it.
pub struct AudioDecoderState {
    pub stream_index: usize,
    pub sample_rate: u32,
    pub channels: u16,
    pub frame_count: nat,
}

impl View for AudioDecoder {
    type V = AudioDecoderState;

    closed spec fn view(&self) -> AudioDecoderState {
        AudioDecoderState {
            stream_index: self.stream_index,
            sample_rate: self.sample_rate,
            channels: self.channels,
            frame_count: self.frame_count as nat,
        }
    }
}

impl AudioDecoder {
    /// A decoder for the best audio stream of a medium, which must have
    /// one. Rate and channel count are what the decode engine says of the
    /// stream.
    pub fn new(media_file: &MediaFile, sample_rate: u32, channels: u16) -> (result: Result<
        Self,
        MediaError,
    >)
        ensures
            match media_file.audio_stream {
                Some(index) => result matches Ok(decoder) && decoder@ == (AudioDecoderState {
                    stream_index: index,
                    sample_rate,
                    channels,
                    frame_count: 0,
                }),
                None => result matches Err(MediaError::Audio(m)) && m@ == "No audio stream found"@,
            },
    {
        match media_file.audio_stream {
            Some(index) => Ok(
                AudioDecoder { stream_index: index, sample_rate, channels, frame_count: 0 },
            ),
            None => Err(MediaError::Audio(String::from_str("No audio stream found"))),
        }
    }

    /// Whether a packet of the given stream is for this decoder. Packets of
    /// other streams give no frame and are not decoded.
    pub fn accepts(&self, packet_stream: usize) -> (yes: bool)
        ensures
            yes == (packet_stream == self@.stream_index),
    {
        packet_stream == self.stream_index
    }

    /// Counts a frame that the decoder has given.
    pub fn count_frame(&mut self)
        ensures
            final(self)@ == (AudioDecoderState {
                frame_count: if old(self)@.frame_count < u64::MAX {
                    old(self)@.frame_count + 1
                } else {
                    old(self)@.frame_count
                },
                ..old(self)@
            }),
    {
        self.frame_count = self.frame_count.saturating_add(1);
    }

    pub fn stream_index(&self) -> (index: usize)
        ensures
            index == self@.stream_index,
    {
        self.stream_index
    }

    pub fn sample_rate(&self) -> (rate: u32)
        ensures
            rate == self@.sample_rate,
    {
        self.sample_rate
    }

    pub fn channels(&self) -> (channels: u16)
        ensures
            channels == self@.channels,
    {
        self.channels
    }

    pub fn frame_count(&self) -> (count: u64)
        ensures
            count == self@.frame_count,
    {
        self.frame_count
    }
}

} // verus!
