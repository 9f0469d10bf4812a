//! The playback synchroniser: the player's state and commands, and the
//! decisions of the loops that pace video frames and wait for the audio.
//!
//! The loops themselves run in the program around this library. Each round
//! it leaves the loop if `stop_requested` holds, applies the commands that
//! have arrived with `handle_command`, and asks for the round's action with
//! `tick`. Time is handed in as nanoseconds on a clock that never goes back.

use crate::media_core::errors::{is_pipeline_error, is_video_error, MediaError};
use crate::media_core::media::{FrameRate, MediaFile, MediaInfo, MediaType};
use crate::media_core::pipeline::{
    feed_reports, DecodeEvent, FramePoll, Pipeline, PipelineBuilder, PipelineState, PollKind,
};
use crate::media_core::video::frame::VideoFrame;
use crate::terminal_player::audio::{AudioPlayer, AudioPlayerState, SinkCommand, NO_VOLUME};
use crate::terminal_player::audio::{capped_sum, clamp_unit};
use crate::terminal_player::renderer::{resized, width_divisor, AsciiRenderer, RenderConfig};
use std::time::Duration;
use vstd::prelude::*;
use vstd::string::*;

verus! {

/// The frames that the player's pipeline holds ready.
pub const VIDEO_BUFFER_FRAMES: usize = 8;

/// The frame rate assumed where neither the user nor the medium states one:
/// thirty frames a second.
pub open spec fn default_frame_rate() -> FrameRate {
    FrameRate { numerator: 30, denominator: 1 }
}

/// How long a round sleeps while the next frame is not due, in milliseconds.
pub const FRAME_WAIT_SLEEP_MS: u64 = 1;

/// How long a round sleeps while the decoder has no frame yet.
pub const DECODE_WAIT_SLEEP_MS: u64 = 10;

/// How long a round sleeps while playback is paused.
pub const PAUSED_SLEEP_MS: u64 = 16;

/// How long a round sleeps while the video has ended and the audio plays on.
pub const AUDIO_TAIL_SLEEP_MS: u64 = 1000;

/// How long a round of the wait for the audio sleeps, and a round of
/// audio-only playback.
pub const AUDIO_POLL_SLEEP_MS: u64 = 500;

/// How long a round sleeps while a still picture is shown.
pub const IMAGE_SLEEP_MS: u64 = 100;

/// The longest wait for the audio to end after the video has, in
/// nanoseconds: sixty seconds.
pub const MAX_AUDIO_WAIT_NANOS: u64 = 60_000_000_000;

#[derive(Debug, Clone, Copy)]
pub struct PlayerConfig {
    /// A frame rate that overrides the one of the medium.
    pub fps: Option<FrameRate>,
    pub loop_playback: bool,
    pub char_map_index: u8,
    pub grayscale: bool,
    pub width_modifier: u32,
    pub allow_frame_skip: bool,
    pub add_newlines: bool,
    pub enable_audio: bool,
}

impl Default for PlayerConfig {
    fn default() -> (config: Self)
        ensures
            config.fps is None,
            !config.loop_playback,
            config.char_map_index == 0,
            !config.grayscale,
            config.width_modifier == 1,
            !config.allow_frame_skip,
            !config.add_newlines,
            config.enable_audio,
    {
        Self {
            fps: None,
            loop_playback: false,
            char_map_index: 0,
            grayscale: false,
            width_modifier: 1,
            allow_frame_skip: false,
            add_newlines: false,
            enable_audio: true,
        }
    }
}

/// What the user can ask of the player. A volume is the bit pattern of its
/// float.
#[derive(Debug, Clone)]
pub enum PlayerCommand {
    Play,
    Pause,
    Stop,
    Seek(Duration),
    SetVolume(u32),
    Mute,
    Unmute,
    TogglePlayPause,
    ToggleMute,
    SetCharMap(u8),
    ToggleGrayscale,
    Resize(u16, u16),
}

#[derive(Debug, Clone, Copy, PartialEq, Eq, Structural)]
pub enum PlayerState {
    Playing,
    Paused,
    Stopped,
}

/// What a command asks of the world outside the player.
#[derive(Debug, Clone, Copy, PartialEq, Eq, Structural)]
pub enum CommandEffect {
    /// The command only changed the player.
    Nothing,
    /// The audio sink is to do this.
    Sink(SinkCommand),
    /// The command is not supported and changed nothing.
    Unsupported,
}

/// Which of the playback loops a medium calls for.
#[derive(Debug, Clone, Copy, PartialEq, Eq, Structural)]
pub enum PlaybackMode {
    Video,
    Audio,
    Image,
}

/// What a round of a playback loop is to do.
#[derive(Debug)]
pub enum SyncAction {
    /// Leave the loop.
    Exit,
    /// Go on with the next round at once.
    Continue,
    /// Sleep this many milliseconds, then go on with the next round.
    Sleep(u64),
    /// Render this frame and hand it to the terminal, then report with
    /// `on_frame_sent`.
    Render(VideoFrame),
    /// Read and decode one packet, report it with `on_decode_event`, and ask
    /// again.
    ReadPacket,
    /// The video has ended and is to loop: reopen the medium and hand it to
    /// `restart`.
    ReopenMedia,
    /// The pipeline failed; playback ends with this error.
    Fail(MediaError),
}

/// The player as contracts see it.
pub struct PlayerView {
    pub playing: bool,
    pub stop_requested: bool,
    pub grayscale: bool,
    pub render: RenderConfig,
    pub audio: Option<AudioPlayerState>,
}

impl PlayerView {
    pub open spec fn state(self) -> PlayerState {
        if self.stop_requested {
            PlayerState::Stopped
        } else if self.playing {
            PlayerState::Playing
        } else {
            PlayerState::Paused
        }
    }

    /// The command can be applied: a resize needs a width divisor that is
    /// not zero.
    pub open spec fn accepts(self, command: PlayerCommand) -> bool {
        command is Resize ==> width_divisor(self.render.width_modifier) != 0
    }

    /// The player after `command`.
    pub open spec fn handled(self, command: PlayerCommand) -> Self {
        match command {
            PlayerCommand::Play => PlayerView { playing: true, ..self },
            PlayerCommand::Pause => PlayerView { playing: false, ..self },
            PlayerCommand::TogglePlayPause => PlayerView { playing: !self.playing, ..self },
            PlayerCommand::Stop => PlayerView {
                stop_requested: true,
                audio: match self.audio {
                    Some(audio) => Some(audio.stopped()),
                    None => None,
                },
                ..self
            },
            PlayerCommand::Seek(_) => self,
            PlayerCommand::SetVolume(volume) => PlayerView {
                audio: match self.audio {
                    Some(audio) => Some(audio.volume_set(volume)),
                    None => None,
                },
                ..self
            },
            PlayerCommand::Mute => PlayerView {
                audio: match self.audio {
                    Some(audio) => Some(audio.muted()),
                    None => None,
                },
                ..self
            },
            PlayerCommand::Unmute => PlayerView {
                audio: match self.audio {
                    Some(audio) => Some(audio.unmuted()),
                    None => None,
                },
                ..self
            },
            PlayerCommand::ToggleMute => PlayerView {
                audio: match self.audio {
                    Some(audio) => Some(audio.mute_toggled()),
                    None => None,
                },
                ..self
            },
            PlayerCommand::SetCharMap(index) => PlayerView {
                render: RenderConfig { char_map_index: index, ..self.render },
                ..self
            },
            PlayerCommand::ToggleGrayscale => PlayerView {
                grayscale: !self.grayscale,
                render: RenderConfig { grayscale: !self.grayscale, ..self.render },
                ..self
            },
            PlayerCommand::Resize(width, height) => PlayerView {
                render: resized(self.render, width, height),
                ..self
            },
        }
    }

    /// What `command` asks of the world outside the player.
    pub open spec fn effect(self, command: PlayerCommand) -> CommandEffect {
        match command {
            PlayerCommand::Seek(_) => CommandEffect::Unsupported,
            PlayerCommand::SetCharMap(_) | PlayerCommand::ToggleGrayscale | PlayerCommand::Resize(
                _,
                _,
            ) => CommandEffect::Nothing,
            _ => match self.audio {
                None => CommandEffect::Nothing,
                Some(audio) => match command {
                    PlayerCommand::Play => CommandEffect::Sink(SinkCommand::Play),
                    PlayerCommand::Pause => CommandEffect::Sink(SinkCommand::Pause),
                    PlayerCommand::TogglePlayPause => if self.playing {
                        CommandEffect::Sink(SinkCommand::Pause)
                    } else {
                        CommandEffect::Sink(SinkCommand::Play)
                    },
                    PlayerCommand::Stop => CommandEffect::Sink(SinkCommand::Stop),
                    PlayerCommand::SetVolume(volume) => if audio.muted {
                        CommandEffect::Nothing
                    } else {
                        CommandEffect::Sink(SinkCommand::SetVolume(clamp_unit(volume)))
                    },
                    PlayerCommand::Mute => CommandEffect::Sink(SinkCommand::SetVolume(NO_VOLUME)),
                    PlayerCommand::Unmute => CommandEffect::Sink(
                        SinkCommand::SetVolume(audio.original_volume),
                    ),
                    PlayerCommand::ToggleMute => if audio.muted {
                        CommandEffect::Sink(SinkCommand::SetVolume(audio.original_volume))
                    } else {
                        CommandEffect::Sink(SinkCommand::SetVolume(NO_VOLUME))
                    },
                    _ => CommandEffect::Nothing,
                },
            },
        }
    }
}

/// A stop is final: once it was asked for, the player stays stopped whatever
/// command follows. Play and pause lead to playing and paused, and the
/// toggle changes the one for the other.
pub proof fn lemma_player_states(state: PlayerView, command: PlayerCommand)
    ensures
        state.handled(PlayerCommand::Stop).state() == PlayerState::Stopped,
        state.stop_requested ==> state.handled(command).state() == PlayerState::Stopped,
        !state.stop_requested ==> state.handled(PlayerCommand::Play).state()
            == PlayerState::Playing,
        !state.stop_requested ==> state.handled(PlayerCommand::Pause).state()
            == PlayerState::Paused,
        !state.stop_requested ==> state.handled(PlayerCommand::TogglePlayPause).state() == (
        if state.playing {
            PlayerState::Paused
        } else {
            PlayerState::Playing
        }),
{
}

/// The volume a command sets is the volume that is reported once the player
/// is not muted; a seek changes nothing.
pub proof fn lemma_volume_command(state: PlayerView, volume: u32, position: Duration)
    requires
        state.audio is Some,
    ensures
        state.handled(PlayerCommand::SetVolume(volume)).handled(PlayerCommand::Mute).handled(
            PlayerCommand::Unmute,
        ).audio->0.volume() == clamp_unit(volume),
        state.handled(PlayerCommand::Seek(position)) == state,
        state.effect(PlayerCommand::Seek(position)) == CommandEffect::Unsupported,
{
}

/// The frame rate that paces playback: the user's if there is one, else the
/// medium's, else thirty frames a second.
pub open spec fn chosen_frame_rate(forced: Option<FrameRate>, source: Option<FrameRate>) -> FrameRate {
    match forced {
        Some(rate) => rate,
        None => match source {
            Some(rate) => rate,
            None => default_frame_rate(),
        },
    }
}

/// The time between two frames at `rate`, in whole nanoseconds.
pub open spec fn interval_nanos(rate: FrameRate) -> int {
    1_000_000_000 * (rate.denominator as int) / (rate.numerator as int)
}

pub fn effective_frame_rate(forced: Option<FrameRate>, source: Option<FrameRate>) -> (rate:
    FrameRate)
    ensures
        rate == chosen_frame_rate(forced, source),
{
    match forced {
        Some(rate) => rate,
        None => match source {
            Some(rate) => rate,
            None => FrameRate { numerator: 30, denominator: 1 },
        },
    }
}

/// The time between two frames at `rate`, in nanoseconds, rounded down. The
/// rate must be positive.
pub fn frame_interval_nanos(rate: FrameRate) -> (nanos: u64)
    requires
        rate.numerator > 0,
        rate.denominator > 0,
    ensures
        nanos == interval_nanos(rate),
{
    1_000_000_000u64 * (rate.denominator as u64) / (rate.numerator as u64)
}

/// The player: what it was asked to do, whether it plays, and the settings
/// of its renderer and its audio side.
pub struct Player {
    media_file: MediaFile,
    config: PlayerConfig,
    playing: bool,
    stop_signal: bool,
    renderer: AsciiRenderer,
    audio_player: Option<AudioPlayer>,
}

impl View for Player {
    type V = PlayerView;

    closed spec fn view(&self) -> PlayerView {
        PlayerView {
            playing: self.playing,
            stop_requested: self.stop_signal,
            grayscale: self.config.grayscale,
            render: self.renderer@,
            audio: match self.audio_player {
                Some(audio) => Some(audio@),
                None => None,
            },
        }
    }
}

/// Whether a player for this medium is to have an audio side.
pub open spec fn wants_audio(config: PlayerConfig, info: MediaInfo) -> bool {
    config.enable_audio && info.has_audio
}

/// The renderer settings a player starts with: eighty by twenty-four cells,
/// the rest as the player's configuration says.
pub open spec fn initial_render_config(config: PlayerConfig) -> RenderConfig {
    RenderConfig {
        target_width: 80,
        target_height: 24,
        char_map_index: config.char_map_index,
        grayscale: config.grayscale,
        add_newlines: config.add_newlines,
        width_modifier: config.width_modifier,
    }
}

impl Player {
    pub closed spec fn spec_config(&self) -> PlayerConfig {
        self.config
    }

    pub closed spec fn spec_media(&self) -> MediaFile {
        self.media_file
    }

    /// Whether the player is to have an audio side: audio is enabled and the
    /// medium has an audio stream.
    pub fn wants_audio(config: &PlayerConfig, info: &MediaInfo) -> (wanted: bool)
        ensures
            wanted == wants_audio(*config, *info),
    {
        config.enable_audio && info.has_audio
    }

    /// A player for an opened medium, paused and not stopped. It has an
    /// audio side if one is wanted and the audio device could be set up;
    /// without the device it plays the video alone.
    pub fn new(media_file: MediaFile, config: PlayerConfig, audio_device_ready: bool) -> (result:
        Result<Self, MediaError>)
        ensures
            result matches Ok(player) && {
                &&& player.spec_config() == config
                &&& player.spec_media() == media_file
                &&& !player@.playing
                &&& !player@.stop_requested
                &&& player@.grayscale == config.grayscale
                &&& player@.render == initial_render_config(config)
                &&& player@.audio is Some <==> wants_audio(config, media_file.info)
                    && audio_device_ready
                &&& player@.audio matches Some(audio) ==> !audio.muted && !audio.stop_requested
            },
    {
        let render_config = RenderConfig {
            target_width: 80,
            target_height: 24,
            char_map_index: config.char_map_index,
            grayscale: config.grayscale,
            add_newlines: config.add_newlines,
            width_modifier: config.width_modifier,
        };
        let renderer = AsciiRenderer::new(render_config);
        let audio_player = if config.enable_audio && media_file.info.has_audio
            && audio_device_ready {
            match AudioPlayer::new(&media_file.info) {
                Ok(player) => Some(player),
                Err(_) => None,
            }
        } else {
            None
        };
        Ok(Self { media_file, config, playing: false, stop_signal: false, renderer, audio_player })
    }

    /// Which loop plays the medium. A medium of unknown kind cannot be
    /// played.
    pub fn playback_mode(&self) -> (result: Result<PlaybackMode, MediaError>)
        ensures
            match self.spec_media().media_type {
                MediaType::Video => result == Ok::<PlaybackMode, MediaError>(PlaybackMode::Video),
                MediaType::Audio => result == Ok::<PlaybackMode, MediaError>(PlaybackMode::Audio),
                MediaType::Image => result == Ok::<PlaybackMode, MediaError>(PlaybackMode::Image),
                MediaType::Unknown => result matches Err(MediaError::InvalidFormat(m)) && m@
                    == "Unknown media type"@,
            },
    {
        match self.media_file.media_type {
            MediaType::Video => Ok(PlaybackMode::Video),
            MediaType::Audio => Ok(PlaybackMode::Audio),
            MediaType::Image => Ok(PlaybackMode::Image),
            MediaType::Unknown => Err(
                MediaError::InvalidFormat(String::from_str("Unknown media type")),
            ),
        }
    }

    /// Sets whether the player plays, and tells the sink to play or to
    /// pause.
    fn set_playing(&mut self, playing: bool) -> (effect: CommandEffect)
        ensures
            final(self)@ == (PlayerView { playing, ..old(self)@ }),
            final(self).spec_media() == old(self).spec_media(),
            final(self).spec_config() == old(self).spec_config(),
            effect == if old(self)@.audio is None {
                CommandEffect::Nothing
            } else if playing {
                CommandEffect::Sink(SinkCommand::Play)
            } else {
                CommandEffect::Sink(SinkCommand::Pause)
            },
    {
        self.playing = playing;
        match &mut self.audio_player {
            Some(audio) => {
                if playing {
                    CommandEffect::Sink(audio.resume())
                } else {
                    CommandEffect::Sink(audio.pause())
                }
            },
            None => CommandEffect::Nothing,
        }
    }

    /// Applies one command. Play and pause set whether the player plays and
    /// tell the sink; stop sets the stop flag and stops the audio side;
    /// volume and mute go to the audio side; the character map, grayscale
    /// and the size go to the renderer. Without an audio side the audio
    /// commands change nothing outside the player. A seek is not supported.
    pub fn handle_command(&mut self, command: PlayerCommand) -> (effect: CommandEffect)
        requires
            old(self)@.accepts(command),
        ensures
            final(self)@ == old(self)@.handled(command),
            effect == old(self)@.effect(command),
            final(self).spec_media() == old(self).spec_media(),
    {
        match command {
            PlayerCommand::Play => self.set_playing(true),
            PlayerCommand::Pause => self.set_playing(false),
            PlayerCommand::Stop => {
                self.stop_signal = true;
                match &mut self.audio_player {
                    Some(audio) => CommandEffect::Sink(audio.stop()),
                    None => CommandEffect::Nothing,
                }
            },
            PlayerCommand::TogglePlayPause => {
                let playing = !self.playing;
                self.set_playing(playing)
            },
            PlayerCommand::ToggleMute => {
                match &mut self.audio_player {
                    Some(audio) => CommandEffect::Sink(audio.toggle_mute()),
                    None => CommandEffect::Nothing,
                }
            },
            PlayerCommand::Mute => {
                match &mut self.audio_player {
                    Some(audio) => CommandEffect::Sink(audio.mute()),
                    None => CommandEffect::Nothing,
                }
            },
            PlayerCommand::Unmute => {
                match &mut self.audio_player {
                    Some(audio) => CommandEffect::Sink(audio.unmute()),
                    None => CommandEffect::Nothing,
                }
            },
            PlayerCommand::SetVolume(volume) => {
                match &mut self.audio_player {
                    Some(audio) => match audio.set_volume(volume) {
                        Some(command) => CommandEffect::Sink(command),
                        None => CommandEffect::Nothing,
                    },
                    None => CommandEffect::Nothing,
                }
            },
            PlayerCommand::SetCharMap(index) => {
                self.renderer.set_char_map(index);
                CommandEffect::Nothing
            },
            PlayerCommand::ToggleGrayscale => {
                self.config.grayscale = !self.config.grayscale;
                self.renderer.set_grayscale(self.config.grayscale);
                CommandEffect::Nothing
            },
            PlayerCommand::Resize(width, height) => {
                self.renderer.update_resolution(width, height);
                CommandEffect::Nothing
            },
            PlayerCommand::Seek(_) => CommandEffect::Unsupported,
        }
    }

    pub fn state(&self) -> (state: PlayerState)
        ensures
            state == self@.state(),
    {
        if self.stop_signal {
            PlayerState::Stopped
        } else if self.playing {
            PlayerState::Playing
        } else {
            PlayerState::Paused
        }
    }

    /// Whether a stop was asked for: every playback loop ends its round on
    /// it before it does anything else.
    pub fn stop_requested(&self) -> (stop: bool)
        ensures
            stop == self@.stop_requested,
    {
        self.stop_signal
    }

    pub fn is_playing(&self) -> (playing: bool)
        ensures
            playing == self@.playing,
    {
        self.playing
    }

    pub fn has_audio(&self) -> (has: bool)
        ensures
            has == self@.audio is Some,
    {
        self.audio_player.is_some()
    }

    pub fn config(&self) -> (config: PlayerConfig)
        ensures
            config == self.spec_config(),
    {
        self.config
    }

    pub fn render_config(&self) -> (config: RenderConfig)
        ensures
            config == self@.render,
    {
        self.renderer.config()
    }

    /// The volume in effect, if the player has an audio side.
    pub fn volume(&self) -> (volume: Option<u32>)
        ensures
            volume == match self@.audio {
                Some(audio) => Some(audio.volume()),
                None => None,
            },
    {
        match &self.audio_player {
            Some(audio) => Some(audio.volume()),
            None => None,
        }
    }

    /// Begins playback: the player plays, and the sink, if there is one, is
    /// told to.
    pub fn begin_playback(&mut self) -> (command: Option<SinkCommand>)
        ensures
            final(self)@ == (PlayerView { playing: true, ..old(self)@ }),
            final(self).spec_media() == old(self).spec_media(),
            final(self).spec_config() == old(self).spec_config(),
            command == if old(self)@.audio is Some {
                Some(SinkCommand::Play)
            } else {
                None
            },
    {
        self.playing = true;
        match &mut self.audio_player {
            Some(audio) => Some(audio.play()),
            None => None,
        }
    }

    /// Begins audio-only playback, which needs an audio side.
    pub fn begin_audio_playback(&mut self) -> (result: Result<SinkCommand, MediaError>)
        ensures
            final(self)@ == old(self)@,
            old(self)@.audio is Some ==> result == Ok::<SinkCommand, MediaError>(SinkCommand::Play),
            old(self)@.audio is None ==> (result matches Err(MediaError::Audio(m)) && m@
                == "No audio player available"@),
    {
        match &mut self.audio_player {
            Some(audio) => Ok(audio.play()),
            None => Err(MediaError::Audio(String::from_str("No audio player available"))),
        }
    }

    /// One round of audio-only playback, after the stop flag was looked at
    /// and the commands were applied. `audio_playing` is what the sink says,
    /// `None` without a sink. Playback goes on while the sink plays.
    pub fn audio_tick(&self, audio_playing: Option<bool>) -> (action: SyncAction)
        ensures
            action == if audio_playing == Some(true) {
                SyncAction::Sleep(AUDIO_POLL_SLEEP_MS)
            } else {
                SyncAction::Exit
            },
    {
        match audio_playing {
            Some(true) => SyncAction::Sleep(AUDIO_POLL_SLEEP_MS),
            _ => SyncAction::Exit,
        }
    }

    /// One round while a still picture is shown, after the commands were
    /// applied: the picture stays until a stop is asked for.
    pub fn image_tick(&self) -> (action: SyncAction)
        ensures
            action == SyncAction::Sleep(IMAGE_SLEEP_MS),
    {
        SyncAction::Sleep(IMAGE_SLEEP_MS)
    }

    /// Ends playback on the audio side, whichever way the loop was left.
    pub fn teardown(&mut self) -> (command: Option<SinkCommand>)
        ensures
            final(self)@ == (PlayerView {
                audio: match old(self)@.audio {
                    Some(audio) => Some(audio.stopped()),
                    None => None,
                },
                ..old(self)@
            }),
            command == if old(self)@.audio is Some {
                Some(SinkCommand::Stop)
            } else {
                None
            },
    {
        match &mut self.audio_player {
            Some(audio) => Some(audio.stop()),
            None => None,
        }
    }
}

/// The video loop as contracts see it.
pub struct VideoPlaybackState {
    pub pipeline: PipelineState,
    /// The time between two frames, in nanoseconds.
    pub frame_interval: u64,
    pub allow_frame_skip: bool,
    pub loop_playback: bool,
    /// The audio was started together with the video.
    pub audio_started: bool,
    /// When the last frame was delivered.
    pub last_frame_time: u64,
    /// When the frame that is being delivered was handed out.
    pub frame_time: u64,
    /// The frames delivered so far.
    pub frame_count: nat,
    /// The frames that came more than two intervals after the one before,
    /// with frame skipping allowed.
    pub late_frames: nat,
    pub video_finished: bool,
    /// When the wait for the audio began, once it has.
    pub wait_started: Option<u64>,
}

/// What the audio sink says of itself: `None` without a sink, else whether
/// it plays.
pub open spec fn audio_still_playing(audio_playing: Option<bool>) -> bool {
    audio_playing == Some(true)
}

impl VideoPlaybackState {
    /// The time since the last frame was delivered; none if the clock reads
    /// earlier than it did then.
    pub open spec fn elapsed(self, now: u64) -> int {
        if now >= self.last_frame_time {
            now - self.last_frame_time
        } else {
            0
        }
    }

    /// The next frame is due: the frame interval has passed, or frames may
    /// be skipped and so none is held back.
    pub open spec fn frame_due(self, now: u64) -> bool {
        self.elapsed(now) >= self.frame_interval || self.allow_frame_skip
    }

    /// The round asks the pipeline for a frame.
    pub open spec fn pulls_frame(self, now: u64, playing: bool) -> bool {
        playing && !self.video_finished && self.frame_due(now)
    }

    /// The state after a round.
    pub open spec fn ticked(self, now: u64, playing: bool) -> Self {
        if !self.pulls_frame(now, playing) {
            self
        } else {
            match self.pipeline.poll_kind() {
                PollKind::Frame => VideoPlaybackState {
                    pipeline: self.pipeline.polled(),
                    frame_time: now,
                    ..self
                },
                PollKind::Finished => VideoPlaybackState {
                    pipeline: if self.loop_playback {
                        self.pipeline.polled().stopped()
                    } else {
                        self.pipeline.polled()
                    },
                    video_finished: true,
                    ..self
                },
                _ => VideoPlaybackState { pipeline: self.pipeline.polled(), ..self },
            }
        }
    }

    /// The frame that was delivered at `frame_time` came late.
    pub open spec fn frame_was_late(self) -> bool {
        self.allow_frame_skip && self.elapsed(self.frame_time) > 2 * self.frame_interval
    }

    /// The state after the terminal took, or refused, the rendered frame.
    pub open spec fn frame_sent(self, delivered: bool) -> Self {
        if delivered {
            VideoPlaybackState {
                frame_count: capped_sum(self.frame_count, 1),
                late_frames: if self.frame_was_late() {
                    capped_sum(self.late_frames, 1)
                } else {
                    self.late_frames
                },
                last_frame_time: self.frame_time,
                ..self
            }
        } else {
            self
        }
    }

    /// After the loop, the end of the audio is waited for: it was started
    /// and playback does not loop.
    pub open spec fn waits_for_audio(self) -> bool {
        self.audio_started && !self.loop_playback
    }

    /// The wait for the audio goes on: it has begun less than sixty seconds
    /// ago, the sink still plays, and no stop was asked for.
    pub open spec fn audio_wait_goes_on(
        self,
        now: u64,
        stop_requested: bool,
        audio_playing: Option<bool>,
    ) -> bool {
        &&& self.wait_started matches Some(started)
        &&& now < started || now - started < MAX_AUDIO_WAIT_NANOS
        &&& audio_still_playing(audio_playing)
        &&& !stop_requested
    }
}

/// What a round of the video loop answers, for the state it met.
pub open spec fn tick_reports(
    action: SyncAction,
    state: VideoPlaybackState,
    now: u64,
    playing: bool,
    audio_playing: Option<bool>,
) -> bool {
    if state.pulls_frame(now, playing) {
        match state.pipeline.poll_kind() {
            PollKind::Frame => action == SyncAction::Render(state.pipeline.buffer[0]),
            PollKind::NeedPacket => action == SyncAction::ReadPacket,
            PollKind::NotReady => action == SyncAction::Sleep(DECODE_WAIT_SLEEP_MS),
            PollKind::Finished => action == if state.loop_playback {
                SyncAction::ReopenMedia
            } else {
                SyncAction::Exit
            },
            PollKind::NoMedia => action matches SyncAction::Fail(e) && is_pipeline_error(
                e,
                "No media file set"@,
            ),
            PollKind::NoDecoder => action matches SyncAction::Fail(e) && is_pipeline_error(
                e,
                "No decoder available"@,
            ),
        }
    } else if playing && !state.video_finished {
        action == SyncAction::Sleep(FRAME_WAIT_SLEEP_MS)
    } else if state.video_finished && state.audio_started {
        action == if audio_still_playing(audio_playing) {
            SyncAction::Sleep(AUDIO_TAIL_SLEEP_MS)
        } else {
            SyncAction::Exit
        }
    } else {
        action == SyncAction::Sleep(PAUSED_SLEEP_MS)
    }
}

/// The video loop: a pipeline of eight frames and the clockwork that hands
/// its frames out one frame interval apart.
pub struct VideoPlayback {
    pipeline: Pipeline,
    frame_interval: u64,
    allow_frame_skip: bool,
    loop_playback: bool,
    audio_started: bool,
    last_frame_time: u64,
    frame_time: u64,
    frame_count: u64,
    late_frames: u64,
    video_finished: bool,
    wait_started: Option<u64>,
}

impl View for VideoPlayback {
    type V = VideoPlaybackState;

    closed spec fn view(&self) -> VideoPlaybackState {
        VideoPlaybackState {
            pipeline: self.pipeline@,
            frame_interval: self.frame_interval,
            allow_frame_skip: self.allow_frame_skip,
            loop_playback: self.loop_playback,
            audio_started: self.audio_started,
            last_frame_time: self.last_frame_time,
            frame_time: self.frame_time,
            frame_count: self.frame_count as nat,
            late_frames: self.late_frames as nat,
            video_finished: self.video_finished,
            wait_started: self.wait_started,
        }
    }
}

impl VideoPlayback {
    /// Sets the video loop up at time `now`: makes a pipeline of
    /// `VIDEO_BUFFER_FRAMES` frames, binds the medium and starts it. It
    /// fails, as binding does, for a medium said to have video without a
    /// video stream.
    pub fn begin(
        media_file: MediaFile,
        config: &PlayerConfig,
        frame_interval: u64,
        audio_started: bool,
        now: u64,
    ) -> (result: Result<Self, MediaError>)
        ensures
            PipelineState::media_accepted(media_file.info.has_video, media_file.video_stream)
                ==> ({
                &&& result matches Ok(playback)
                &&& playback@ == (VideoPlaybackState {
                    pipeline: PipelineState::fresh(VIDEO_BUFFER_FRAMES as nat).media_set(
                        media_file.info.has_video,
                        media_file.video_stream,
                    ).started(),
                    frame_interval,
                    allow_frame_skip: config.allow_frame_skip,
                    loop_playback: config.loop_playback,
                    audio_started,
                    last_frame_time: now,
                    frame_time: now,
                    frame_count: 0,
                    late_frames: 0,
                    video_finished: false,
                    wait_started: None,
                })
            }),
            !PipelineState::media_accepted(media_file.info.has_video, media_file.video_stream)
                ==> (result matches Err(e) && is_video_error(e, "No video stream found"@)),
    {
        let mut pipeline = PipelineBuilder::new().buffer_size(VIDEO_BUFFER_FRAMES).build();
        match pipeline.set_media(media_file) {
            Ok(()) => {},
            Err(error) => {
                return Err(error);
            },
        }
        match pipeline.start() {
            Ok(()) => {},
            Err(error) => {
                return Err(error);
            },
        }
        Ok(
            Self {
                pipeline,
                frame_interval,
                allow_frame_skip: config.allow_frame_skip,
                loop_playback: config.loop_playback,
                audio_started,
                last_frame_time: now,
                frame_time: now,
                frame_count: 0,
                late_frames: 0,
                video_finished: false,
                wait_started: None,
            },
        )
    }

    /// One round of the video loop, after the stop flag was looked at and
    /// the commands were applied.
    ///
    /// While the player plays and the video has not ended, a frame is pulled
    /// from the pipeline once the frame interval has passed since the last
    /// one was delivered (at once, if frames may be skipped): the frame is
    /// handed out to be rendered; or a packet is asked for; or the round
    /// waits for the decoder; or the video has ended, and then playback
    /// either loops, with the pipeline stopped for the restart, or leaves the
    /// loop. Before a frame is due the round sleeps. While paused it sleeps
    /// longer. When the video has ended and audio was started, the round
    /// waits while the sink plays and leaves the loop when it does not.
    pub fn tick(&mut self, now: u64, playing: bool, audio_playing: Option<bool>) -> (action:
        SyncAction)
        ensures
            final(self)@ == old(self)@.ticked(now, playing),
            tick_reports(action, old(self)@, now, playing, audio_playing),
    {
        if playing && !self.video_finished {
            let elapsed: u64 = if now >= self.last_frame_time {
                now - self.last_frame_time
            } else {
                0
            };
            if elapsed >= self.frame_interval || self.allow_frame_skip {
                match self.pipeline.next_frame() {
                    Err(error) => SyncAction::Fail(error),
                    Ok(FramePoll::Frame(frame)) => {
                        self.frame_time = now;
                        SyncAction::Render(frame)
                    },
                    Ok(FramePoll::NeedPacket) => SyncAction::ReadPacket,
                    Ok(FramePoll::NotReady) => SyncAction::Sleep(DECODE_WAIT_SLEEP_MS),
                    Ok(FramePoll::Finished) => {
                        self.video_finished = true;
                        if self.loop_playback {
                            let _ = self.pipeline.stop();
                            SyncAction::ReopenMedia
                        } else {
                            SyncAction::Exit
                        }
                    },
                }
            } else {
                SyncAction::Sleep(FRAME_WAIT_SLEEP_MS)
            }
        } else if self.video_finished && self.audio_started {
            match audio_playing {
                Some(true) => SyncAction::Sleep(AUDIO_TAIL_SLEEP_MS),
                _ => SyncAction::Exit,
            }
        } else {
            SyncAction::Sleep(PAUSED_SLEEP_MS)
        }
    }

    /// Takes in whether the terminal took the frame that `tick` handed out.
    /// A frame that was taken is counted and sets the time from which the
    /// next one is due; a terminal that is gone ends the loop.
    pub fn on_frame_sent(&mut self, delivered: bool) -> (action: SyncAction)
        ensures
            final(self)@ == old(self)@.frame_sent(delivered),
            action == if delivered {
                SyncAction::Continue
            } else {
                SyncAction::Exit
            },
    {
        if !delivered {
            return SyncAction::Exit;
        }
        let elapsed: u64 = if self.frame_time >= self.last_frame_time {
            self.frame_time - self.last_frame_time
        } else {
            0
        };
        if self.allow_frame_skip && elapsed as u128 > 2 * (self.frame_interval as u128) {
            self.late_frames = self.late_frames.saturating_add(1);
        }
        self.frame_count = self.frame_count.saturating_add(1);
        self.last_frame_time = self.frame_time;
        SyncAction::Continue
    }

    /// Hands what the decode engine made of a packet on to the pipeline.
    pub fn on_decode_event(&mut self, event: DecodeEvent) -> (result: Result<(), MediaError>)
        ensures
            final(self)@ == (VideoPlaybackState {
                pipeline: old(self)@.pipeline.fed(event),
                ..old(self)@
            }),
            feed_reports(result, old(self)@.pipeline, event),
    {
        self.pipeline.on_decode_event(event)
    }

    /// Restarts the video for a loop with the reopened medium: the medium is
    /// bound, the pipeline is started, and the video counts as not ended. If
    /// the medium cannot be bound, nothing changes.
    pub fn restart(&mut self, media_file: MediaFile) -> (result: Result<(), MediaError>)
        ensures
            PipelineState::media_accepted(media_file.info.has_video, media_file.video_stream)
                ==> result is Ok && final(self)@ == (VideoPlaybackState {
                pipeline: old(self)@.pipeline.media_set(
                    media_file.info.has_video,
                    media_file.video_stream,
                ).started(),
                video_finished: false,
                ..old(self)@
            }),
            !PipelineState::media_accepted(media_file.info.has_video, media_file.video_stream)
                ==> ({
                &&& result matches Err(e)
                &&& is_video_error(e, "No video stream found"@)
                &&& final(self)@ == old(self)@
            }),
    {
        match self.pipeline.set_media(media_file) {
            Ok(()) => {},
            Err(error) => {
                return Err(error);
            },
        }
        let _ = self.pipeline.start();
        self.video_finished = false;
        Ok(())
    }

    /// Begins the wait for the audio to end, after the loop was left, and
    /// says whether there is anything to wait for.
    pub fn begin_audio_wait(&mut self, now: u64) -> (waiting: bool)
        ensures
            waiting == old(self)@.waits_for_audio(),
            final(self)@ == (VideoPlaybackState {
                wait_started: if waiting {
                    Some(now)
                } else {
                    old(self)@.wait_started
                },
                ..old(self)@
            }),
    {
        if self.audio_started && !self.loop_playback {
            self.wait_started = Some(now);
            true
        } else {
            false
        }
    }

    /// One round of the wait for the audio: it goes on, half a second at a
    /// time, while the sink plays and no stop was asked for, and for sixty
    /// seconds at most, so that a decode process that hangs cannot hold the
    /// player for ever. The commands are applied after each round.
    pub fn audio_wait_tick(
        &self,
        now: u64,
        stop_requested: bool,
        audio_playing: Option<bool>,
    ) -> (action: SyncAction)
        ensures
            action == if self@.audio_wait_goes_on(now, stop_requested, audio_playing) {
                SyncAction::Sleep(AUDIO_POLL_SLEEP_MS)
            } else {
                SyncAction::Exit
            },
    {
        match self.wait_started {
            None => SyncAction::Exit,
            Some(started) => {
                if now >= started && now - started >= MAX_AUDIO_WAIT_NANOS {
                    return SyncAction::Exit;
                }
                match audio_playing {
                    Some(true) => {
                        if stop_requested {
                            SyncAction::Exit
                        } else {
                            SyncAction::Sleep(AUDIO_POLL_SLEEP_MS)
                        }
                    },
                    _ => SyncAction::Exit,
                }
            },
        }
    }

    /// Ends the video loop, whichever way it was left: the pipeline is
    /// stopped and its buffer is empty.
    pub fn finish(&mut self)
        ensures
            final(self)@ == (VideoPlaybackState {
                pipeline: old(self)@.pipeline.stopped(),
                ..old(self)@
            }),
            final(self)@.pipeline.buffer.len() == 0,
    {
        let _ = self.pipeline.stop();
    }

    /// The frames delivered so far.
    pub fn frame_count(&self) -> (count: u64)
        ensures
            count == self@.frame_count,
    {
        self.frame_count
    }

    /// The frames that came late while frame skipping was allowed.
    pub fn late_frames(&self) -> (count: u64)
        ensures
            count == self@.late_frames,
    {
        self.late_frames
    }

    pub fn is_video_finished(&self) -> (finished: bool)
        ensures
            finished == self@.video_finished,
    {
        self.video_finished
    }

    /// The number of frames that wait in the pipeline.
    pub fn buffered_frames(&self) -> (len: usize)
        ensures
            len == self@.pipeline.buffer.len(),
    {
        self.pipeline.buffer_size()
    }
}

/// With frame skipping off, two frames are never handed out less than a
/// frame interval apart: a round that comes earlier than that after a
/// delivery pulls no frame and changes nothing.
pub proof fn lemma_frames_are_paced(state: VideoPlaybackState, now: u64, playing: bool)
    requires
        !state.allow_frame_skip,
        state.elapsed(now) < state.frame_interval,
    ensures
        !state.pulls_frame(now, playing),
        state.ticked(now, playing) == state,
{
}

/// While the player is paused, no round pulls a frame or changes the state
/// of the loop.
pub proof fn lemma_paused_holds_frames(state: VideoPlaybackState, now: u64)
    ensures
        state.ticked(now, false) == state,
{
}

/// The wait for the audio ends on its own: sixty seconds after it began, no
/// round goes on waiting, whatever the sink says.
pub proof fn lemma_audio_wait_is_bounded(
    state: VideoPlaybackState,
    now: u64,
    stop_requested: bool,
    audio_playing: Option<bool>,
)
    requires
        state.wait_started matches Some(started) && now >= started && now - started
            >= MAX_AUDIO_WAIT_NANOS,
    ensures
        !state.audio_wait_goes_on(now, stop_requested, audio_playing),
{
}

} // verus!
