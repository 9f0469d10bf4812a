use std::time::Duration;

use ascii_term::media_core::errors::MediaError;
use ascii_term::media_core::media::{FrameRate, MediaFile, MediaInfo};
use ascii_term::media_core::pipeline::DecodeEvent;
use ascii_term::media_core::video::frame::{FrameFormat, VideoFrame};
use ascii_term::terminal_player::audio::SinkCommand;
use ascii_term::terminal_player::player::{
    effective_frame_rate, frame_interval_nanos, CommandEffect, PlaybackMode, Player,
    PlayerCommand, PlayerConfig, PlayerState, SyncAction, VideoPlayback,
};

fn bits(x: f32) -> u32 {
    x.to_bits()
}

fn frame(n: i64) -> VideoFrame {
    VideoFrame::new(vec![0, 0, 0], 1, 1, FrameFormat::RGB8, Duration::from_millis(n as u64), n)
}

fn media(has_video: bool, has_audio: bool) -> MediaFile {
    let mut info = MediaInfo::default();
    info.has_video = has_video;
    info.has_audio = has_audio;
    info.fps = Some(FrameRate { numerator: 30, denominator: 1 });
    MediaFile::open(
        "clip.mp4".to_string(),
        info,
        if has_video { Some(0) } else { None },
        if has_audio { Some(1) } else { None },
    )
}

fn player(has_audio: bool) -> Player {
    Player::new(media(true, has_audio), PlayerConfig::default(), true).unwrap()
}

#[test]
fn default_player_config() {
    let config = PlayerConfig::default();
    assert_eq!(config.fps, None);
    assert!(!config.loop_playback);
    assert_eq!(config.char_map_index, 0);
    assert!(!config.grayscale);
    assert_eq!(config.width_modifier, 1);
    assert!(!config.allow_frame_skip);
    assert!(!config.add_newlines);
    assert!(config.enable_audio);
}

#[test]
fn frame_rates_and_intervals() {
    let forced = FrameRate { numerator: 24, denominator: 1 };
    let source = FrameRate { numerator: 30000, denominator: 1001 };
    assert_eq!(effective_frame_rate(Some(forced), Some(source)), forced);
    assert_eq!(effective_frame_rate(None, Some(source)), source);
    assert_eq!(
        effective_frame_rate(None, None),
        FrameRate { numerator: 30, denominator: 1 }
    );
    assert_eq!(frame_interval_nanos(FrameRate { numerator: 30, denominator: 1 }), 33_333_333);
    assert_eq!(frame_interval_nanos(source), 33_366_666);
    assert_eq!(frame_interval_nanos(FrameRate { numerator: 1, denominator: 1 }), 1_000_000_000);
    assert_eq!(
        frame_interval_nanos(FrameRate { numerator: 1, denominator: i32::MAX }),
        2_147_483_647_000_000_000
    );
    assert_eq!(frame_interval_nanos(FrameRate { numerator: i32::MAX, denominator: 1 }), 0);
}

#[test]
fn new_player_is_paused() {
    let p = player(true);
    assert_eq!(p.state(), PlayerState::Paused);
    assert!(!p.stop_requested());
    assert!(!p.is_playing());
    assert!(p.has_audio());
    assert_eq!(p.volume(), Some(bits(1.0)));
    let render = p.render_config();
    assert_eq!(render.target_width, 80);
    assert_eq!(render.target_height, 24);
    assert_eq!(p.playback_mode().unwrap(), PlaybackMode::Video);
}

#[test]
fn audio_side_is_optional() {
    // no audio stream
    assert!(!Player::new(media(true, false), PlayerConfig::default(), true).unwrap().has_audio());
    // audio disabled
    let mut config = PlayerConfig::default();
    config.enable_audio = false;
    assert!(!Player::new(media(true, true), config, true).unwrap().has_audio());
    // the device could not be set up: video alone
    assert!(!Player::new(media(true, true), PlayerConfig::default(), false).unwrap().has_audio());
    assert!(Player::wants_audio(&PlayerConfig::default(), &media(true, true).info));
    assert!(!Player::wants_audio(&PlayerConfig::default(), &media(true, false).info));
}

#[test]
fn playback_modes() {
    let audio = Player::new(media(false, true), PlayerConfig::default(), true).unwrap();
    assert_eq!(audio.playback_mode().unwrap(), PlaybackMode::Audio);
    let unknown = Player::new(media(false, false), PlayerConfig::default(), true).unwrap();
    match unknown.playback_mode() {
        Err(MediaError::InvalidFormat(m)) => assert_eq!(m, "Unknown media type"),
        other => panic!("unexpected {:?}", other),
    }
}

#[test]
fn play_pause_and_stop_commands() {
    let mut p = player(true);
    assert_eq!(p.handle_command(PlayerCommand::Play), CommandEffect::Sink(SinkCommand::Play));
    assert_eq!(p.state(), PlayerState::Playing);
    assert_eq!(p.handle_command(PlayerCommand::Pause), CommandEffect::Sink(SinkCommand::Pause));
    assert_eq!(p.state(), PlayerState::Paused);
    assert_eq!(
        p.handle_command(PlayerCommand::TogglePlayPause),
        CommandEffect::Sink(SinkCommand::Play)
    );
    assert_eq!(p.state(), PlayerState::Playing);
    assert_eq!(
        p.handle_command(PlayerCommand::TogglePlayPause),
        CommandEffect::Sink(SinkCommand::Pause)
    );
    assert_eq!(p.state(), PlayerState::Paused);
    assert_eq!(p.handle_command(PlayerCommand::Stop), CommandEffect::Sink(SinkCommand::Stop));
    assert_eq!(p.state(), PlayerState::Stopped);
    assert!(p.stop_requested());
}

#[test]
fn commands_without_audio_touch_no_sink() {
    let mut p = player(false);
    assert_eq!(p.handle_command(PlayerCommand::Play), CommandEffect::Nothing);
    assert!(p.is_playing());
    assert_eq!(p.handle_command(PlayerCommand::ToggleMute), CommandEffect::Nothing);
    assert_eq!(p.handle_command(PlayerCommand::SetVolume(bits(0.5))), CommandEffect::Nothing);
    assert_eq!(p.handle_command(PlayerCommand::Mute), CommandEffect::Nothing);
    assert_eq!(p.handle_command(PlayerCommand::Stop), CommandEffect::Nothing);
    assert!(p.stop_requested());
    assert_eq!(p.volume(), None);
    assert_eq!(p.teardown(), None);
}

#[test]
fn volume_and_mute_commands() {
    let mut p = player(true);
    assert_eq!(
        p.handle_command(PlayerCommand::SetVolume(bits(0.4))),
        CommandEffect::Sink(SinkCommand::SetVolume(bits(0.4)))
    );
    assert_eq!(
        p.handle_command(PlayerCommand::Mute),
        CommandEffect::Sink(SinkCommand::SetVolume(bits(0.0)))
    );
    assert_eq!(p.volume(), Some(bits(0.0)));
    assert_eq!(p.handle_command(PlayerCommand::SetVolume(bits(7.0))), CommandEffect::Nothing);
    assert_eq!(
        p.handle_command(PlayerCommand::Unmute),
        CommandEffect::Sink(SinkCommand::SetVolume(bits(1.0)))
    );
    assert_eq!(p.volume(), Some(bits(1.0)));
    assert_eq!(
        p.handle_command(PlayerCommand::ToggleMute),
        CommandEffect::Sink(SinkCommand::SetVolume(bits(0.0)))
    );
    assert_eq!(
        p.handle_command(PlayerCommand::ToggleMute),
        CommandEffect::Sink(SinkCommand::SetVolume(bits(1.0)))
    );
}

#[test]
fn renderer_commands_and_seek() {
    let mut p = player(true);
    assert_eq!(p.handle_command(PlayerCommand::SetCharMap(3)), CommandEffect::Nothing);
    assert_eq!(p.render_config().char_map_index, 3);
    assert_eq!(p.handle_command(PlayerCommand::ToggleGrayscale), CommandEffect::Nothing);
    assert!(p.render_config().grayscale);
    assert!(p.config().grayscale);
    assert_eq!(p.handle_command(PlayerCommand::ToggleGrayscale), CommandEffect::Nothing);
    assert!(!p.render_config().grayscale);
    assert_eq!(p.handle_command(PlayerCommand::Resize(120, 40)), CommandEffect::Nothing);
    assert_eq!(p.render_config().target_width, 120);
    assert_eq!(p.render_config().target_height, 40);
    assert_eq!(
        p.handle_command(PlayerCommand::Seek(Duration::from_secs(5))),
        CommandEffect::Unsupported
    );
    assert_eq!(p.state(), PlayerState::Paused);

    let mut config = PlayerConfig::default();
    config.width_modifier = 2;
    let mut wide = Player::new(media(true, false), config, true).unwrap();
    wide.handle_command(PlayerCommand::Resize(121, 40));
    assert_eq!(wide.render_config().target_width, 60);
}

#[test]
fn audio_only_and_image_rounds() {
    let mut p = Player::new(media(false, true), PlayerConfig::default(), true).unwrap();
    assert_eq!(p.begin_audio_playback().unwrap(), SinkCommand::Play);
    assert!(matches!(p.audio_tick(Some(true)), SyncAction::Sleep(500)));
    assert!(matches!(p.audio_tick(Some(false)), SyncAction::Exit));
    assert!(matches!(p.audio_tick(None), SyncAction::Exit));
    assert!(matches!(p.image_tick(), SyncAction::Sleep(100)));
    assert_eq!(p.teardown(), Some(SinkCommand::Stop));

    let mut silent = player(false);
    match silent.begin_audio_playback() {
        Err(MediaError::Audio(m)) => assert_eq!(m, "No audio player available"),
        other => panic!("unexpected {:?}", other),
    }
    assert_eq!(silent.begin_playback(), None);
    assert!(silent.is_playing());
}

const INTERVAL: u64 = 33_333_333;

fn playback(config: &PlayerConfig, audio_started: bool) -> VideoPlayback {
    VideoPlayback::begin(media(true, audio_started), config, INTERVAL, audio_started, 0).unwrap()
}

#[test]
fn frames_are_paced_by_the_interval() {
    let mut video = playback(&PlayerConfig::default(), false);
    // nothing is due yet
    assert!(matches!(video.tick(0, true, None), SyncAction::Sleep(1)));
    assert!(matches!(video.tick(INTERVAL - 1, true, None), SyncAction::Sleep(1)));
    // due: the pipeline asks for packets until it is full
    let mut fed = 0;
    loop {
        match video.tick(INTERVAL, true, None) {
            SyncAction::ReadPacket => {
                video.on_decode_event(DecodeEvent::Frame(frame(fed))).unwrap();
                fed += 1;
            }
            SyncAction::Render(f) => {
                assert_eq!(f.pts, 0);
                break;
            }
            other => panic!("unexpected {:?}", other),
        }
    }
    assert_eq!(fed, 8);
    assert!(matches!(video.on_frame_sent(true), SyncAction::Continue));
    assert_eq!(video.frame_count(), 1);
    assert_eq!(video.buffered_frames(), 7);
    // the next frame is due one interval after the first
    assert!(matches!(video.tick(2 * INTERVAL - 1, true, None), SyncAction::Sleep(1)));
    assert!(matches!(video.tick(2 * INTERVAL, true, None), SyncAction::Render(_)));
}

#[test]
fn paused_playback_holds_frames() {
    let mut video = playback(&PlayerConfig::default(), false);
    assert!(matches!(video.tick(10 * INTERVAL, false, None), SyncAction::Sleep(16)));
    assert_eq!(video.buffered_frames(), 0);
    assert_eq!(video.frame_count(), 0);
}

#[test]
fn frame_skip_pulls_at_once_and_counts_late_frames() {
    let mut config = PlayerConfig::default();
    config.allow_frame_skip = true;
    let mut video = playback(&config, false);
    assert!(matches!(video.tick(0, true, None), SyncAction::ReadPacket));
    video.on_decode_event(DecodeEvent::EndOfStream(vec![frame(0), frame(1)])).unwrap();
    assert!(matches!(video.tick(1, true, None), SyncAction::Render(_)));
    video.on_frame_sent(true);
    assert_eq!(video.late_frames(), 0);
    // more than two intervals later
    assert!(matches!(video.tick(1 + 2 * INTERVAL + 1, true, None), SyncAction::Render(_)));
    video.on_frame_sent(true);
    assert_eq!(video.late_frames(), 1);
    assert_eq!(video.frame_count(), 2);
}

#[test]
fn a_closed_terminal_ends_the_loop() {
    let mut video = playback(&PlayerConfig::default(), false);
    assert!(matches!(video.tick(INTERVAL, true, None), SyncAction::ReadPacket));
    video.on_decode_event(DecodeEvent::EndOfStream(vec![frame(0)])).unwrap();
    assert!(matches!(video.tick(INTERVAL, true, None), SyncAction::Render(_)));
    assert!(matches!(video.on_frame_sent(false), SyncAction::Exit));
    assert_eq!(video.frame_count(), 0);
}

#[test]
fn pipeline_errors_end_playback() {
    let mut video = playback(&PlayerConfig::default(), false);
    assert!(matches!(video.tick(INTERVAL, true, None), SyncAction::ReadPacket));
    assert!(matches!(
        video.on_decode_event(DecodeEvent::ReadError(MediaError::Io("gone".to_string()))),
        Err(MediaError::Io(_))
    ));
    let mut info = MediaInfo::default();
    info.has_video = true;
    let broken = MediaFile::open("x".to_string(), info, None, None);
    assert!(VideoPlayback::begin(broken, &PlayerConfig::default(), INTERVAL, false, 0).is_err());
    // a medium without video binds no decoder: the first pull fails
    let mut audio_only =
        VideoPlayback::begin(media(false, true), &PlayerConfig::default(), INTERVAL, true, 0)
            .unwrap();
    match audio_only.tick(INTERVAL, true, Some(true)) {
        SyncAction::Fail(MediaError::Pipeline(m)) => assert_eq!(m, "No decoder available"),
        other => panic!("unexpected {:?}", other),
    }
}

#[test]
fn video_end_without_loop_waits_for_audio() {
    let mut video = playback(&PlayerConfig::default(), true);
    assert!(matches!(video.tick(INTERVAL, true, Some(true)), SyncAction::ReadPacket));
    video.on_decode_event(DecodeEvent::EndOfStream(vec![])).unwrap();
    assert!(matches!(video.tick(INTERVAL, true, Some(true)), SyncAction::Exit));
    assert!(video.is_video_finished());
    // asked again, the round waits while the sink plays
    assert!(matches!(video.tick(INTERVAL, true, Some(true)), SyncAction::Sleep(1000)));
    assert!(matches!(video.tick(INTERVAL, true, Some(false)), SyncAction::Exit));
    assert!(matches!(video.tick(INTERVAL, true, None), SyncAction::Exit));

    let second = 1_000_000_000u64;
    assert!(video.begin_audio_wait(5 * second));
    assert!(matches!(video.audio_wait_tick(5 * second, false, Some(true)), SyncAction::Sleep(500)));
    assert!(matches!(video.audio_wait_tick(64 * second, false, Some(true)), SyncAction::Sleep(500)));
    // sixty seconds at most
    assert!(matches!(video.audio_wait_tick(65 * second, false, Some(true)), SyncAction::Exit));
    assert!(matches!(video.audio_wait_tick(6 * second, true, Some(true)), SyncAction::Exit));
    assert!(matches!(video.audio_wait_tick(6 * second, false, Some(false)), SyncAction::Exit));
    assert!(matches!(video.audio_wait_tick(6 * second, false, None), SyncAction::Exit));
    video.finish();
    assert_eq!(video.buffered_frames(), 0);
}

#[test]
fn no_audio_wait_without_audio_or_with_loop() {
    let mut video = playback(&PlayerConfig::default(), false);
    assert!(!video.begin_audio_wait(0));
    assert!(matches!(video.audio_wait_tick(1, false, Some(true)), SyncAction::Exit));
    let mut config = PlayerConfig::default();
    config.loop_playback = true;
    let mut looping = playback(&config, true);
    assert!(!looping.begin_audio_wait(0));
}

#[test]
fn loop_playback_restarts_the_video() {
    let mut config = PlayerConfig::default();
    config.loop_playback = true;
    let mut video = playback(&config, false);
    assert!(matches!(video.tick(INTERVAL, true, None), SyncAction::ReadPacket));
    video.on_decode_event(DecodeEvent::EndOfStream(vec![frame(0)])).unwrap();
    assert!(matches!(video.tick(INTERVAL, true, None), SyncAction::Render(_)));
    video.on_frame_sent(true);
    assert!(matches!(video.tick(2 * INTERVAL, true, None), SyncAction::ReopenMedia));
    assert!(video.is_video_finished());
    video.restart(media(true, false)).unwrap();
    assert!(!video.is_video_finished());
    assert_eq!(video.buffered_frames(), 0);
    // the buffer fills again to its capacity
    let mut fed = 0;
    while let SyncAction::ReadPacket = video.tick(3 * INTERVAL, true, None) {
        video.on_decode_event(DecodeEvent::Frame(frame(fed))).unwrap();
        fed += 1;
    }
    assert_eq!(fed, 8);
    assert_eq!(video.buffered_frames(), 7);
    // a medium that cannot be bound leaves the loop as it was
    let mut info = MediaInfo::default();
    info.has_video = true;
    assert!(video.restart(MediaFile::open("x".to_string(), info, None, None)).is_err());
    assert_eq!(video.buffered_frames(), 7);
}

#[test]
fn ten_seconds_at_thirty_frames_a_second() {
    let mut player = Player::new(media(true, false), PlayerConfig::default(), false).unwrap();
    assert_eq!(player.begin_playback(), None);
    let interval = frame_interval_nanos(effective_frame_rate(
        player.config().fps,
        media(true, false).info.fps,
    ));
    let mut video =
        VideoPlayback::begin(media(true, false), &player.config(), interval, false, 0).unwrap();
    let total_frames = 300;
    let mut decoded = 0;
    let mut rendered = Vec::new();
    let mut now = 0u64;
    let millisecond = 1_000_000u64;
    loop {
        if player.stop_requested() {
            break;
        }
        match video.tick(now, player.is_playing(), None) {
            SyncAction::Exit => break,
            SyncAction::Continue => {}
            SyncAction::Sleep(ms) => now += ms * millisecond,
            SyncAction::ReadPacket => {
                let event = if decoded < total_frames {
                    decoded += 1;
                    DecodeEvent::Frame(frame(decoded - 1))
                } else {
                    DecodeEvent::EndOfStream(vec![])
                };
                video.on_decode_event(event).unwrap();
            }
            SyncAction::Render(f) => {
                rendered.push(f.pts);
                video.on_frame_sent(true);
            }
            other => panic!("unexpected {:?}", other),
        }
        assert!(video.buffered_frames() <= 8);
    }
    assert_eq!(rendered, (0..300).collect::<Vec<i64>>());
    assert_eq!(video.frame_count(), 300);
    // about ten seconds on the clock
    let seconds = now as f64 / 1e9;
    assert!(seconds > 9.9 && seconds < 10.4, "{}", seconds);
    assert!(!video.begin_audio_wait(now));
    video.finish();
    assert_eq!(video.buffered_frames(), 0);
}

#[test]
fn stop_in_the_middle_of_playback() {
    let mut player = Player::new(media(true, true), PlayerConfig::default(), true).unwrap();
    assert_eq!(player.begin_playback(), Some(SinkCommand::Play));
    let mut video =
        VideoPlayback::begin(media(true, true), &player.config(), INTERVAL, true, 0).unwrap();
    let mut fed = 0;
    let mut rendered = 0;
    let mut now = 0;
    let mut rounds = 0;
    loop {
        rounds += 1;
        if player.stop_requested() {
            break;
        }
        if rendered == 5 {
            assert_eq!(
                player.handle_command(PlayerCommand::Stop),
                CommandEffect::Sink(SinkCommand::Stop)
            );
        }
        match video.tick(now, player.is_playing(), Some(true)) {
            SyncAction::ReadPacket => {
                video.on_decode_event(DecodeEvent::Frame(frame(fed))).unwrap();
                fed += 1;
            }
            SyncAction::Render(_) => {
                video.on_frame_sent(true);
                rendered += 1;
            }
            SyncAction::Sleep(ms) => now += ms * 1_000_000,
            other => panic!("unexpected {:?}", other),
        }
        assert!(rounds < 10_000);
    }
    assert!(video.buffered_frames() > 0);
    // the wait for the audio ends at once on a stop
    assert!(video.begin_audio_wait(now));
    assert!(matches!(video.audio_wait_tick(now, true, Some(true)), SyncAction::Exit));
    // teardown: the buffer is empty, the audio side is told to stop
    video.finish();
    assert_eq!(video.buffered_frames(), 0);
    assert_eq!(player.teardown(), Some(SinkCommand::Stop));
    assert_eq!(player.state(), PlayerState::Stopped);
}
