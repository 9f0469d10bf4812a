//! Terminal media playback core: a bounded frame-prefetch pipeline, an audio
//! delivery bridge and the playback synchroniser, together with the media
//! descriptions, format tables and naming rules they rest on.
//!
//! Everything here works on plain values. Opening containers, decoding
//! packets, spawning processes and driving the audio device are done by the
//! program around this library, which reports what happened as events and
//! carries out the actions the library decides on.
//!
//! - [`media_core`]: media descriptions, audio and video frames, pictures,
//!   and the frame-prefetch pipeline.
//! - [`terminal_player`]: the audio bridge, the player and its playback
//!   loops, the text renderer and the keys of the terminal.
//! - [`downloader`]: rules on addresses and on the names of fetched files.
//! - [`text`]: the operations on text that the rest is written in.
//! - [`std_specs`]: contracts for functions of the standard library.
//!
//! Floats are held as their bit patterns: an audio sample and a volume are
//! each a `u32`, to be read with `f32::from_bits`.

pub mod downloader;
pub mod media_core;
pub mod std_specs;
pub mod terminal_player;
pub mod text;
