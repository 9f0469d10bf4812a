use std::sync::atomic::AtomicBool;
use std::sync::Arc;

use ascii_term::media_core::errors::MediaError;
use ascii_term::media_core::media::MediaInfo;
use ascii_term::terminal_player::audio::{
    clamp_volume, decode_command_args, AudioPlayer, BlockOutcome, BlockRead, BlockStep,
    DecodeLoop, DirectAudioSource, LoopAction, PullEvent, ReadOutcome, SinkCommand,
    BLOCK_SAMPLES, FULL_VOLUME, NO_VOLUME,
};
use ascii_term::terminal_player::flag::FinishedFlag;
use ascii_term::terminal_player::samples::{
    is_finite, sample_from_le_bytes, samples_from_bytes, SILENCE,
};

fn bits(x: f32) -> u32 {
    x.to_bits()
}

fn audio_info(rate: Option<u32>, channels: Option<u16>) -> MediaInfo {
    let mut info = MediaInfo::default();
    info.has_audio = true;
    info.sample_rate = rate;
    info.channels = channels;
    info
}

#[test]
fn finite_samples_are_lossless() {
    let values = [
        0.0f32,
        -0.0,
        1.0,
        -1.0,
        0.5,
        -0.25,
        1.0e-40, // subnormal
        f32::MIN_POSITIVE,
        f32::MAX,
        f32::MIN,
        3.1415927,
        123456.79,
    ];
    for v in values {
        let b = v.to_le_bytes();
        let sample = sample_from_le_bytes(b[0], b[1], b[2], b[3]);
        assert_eq!(sample, v.to_bits());
        assert_eq!(f32::from_bits(sample).to_le_bytes(), b);
        assert!(is_finite(sample));
    }
}

#[test]
fn non_finite_samples_become_silence() {
    let values = [
        f32::INFINITY,
        f32::NEG_INFINITY,
        f32::NAN,
        f32::from_bits(0x7F80_0001),
        f32::from_bits(0x7FFF_FFFF),
        f32::from_bits(0xFF80_0001),
        f32::from_bits(0xFFFF_FFFF),
    ];
    for v in values {
        let b = v.to_le_bytes();
        let sample = sample_from_le_bytes(b[0], b[1], b[2], b[3]);
        assert_eq!(sample, SILENCE);
        assert_eq!(f32::from_bits(sample), 0.0);
        assert!(f32::from_bits(sample).is_sign_positive());
        assert!(!is_finite(v.to_bits()));
    }
}

#[test]
fn finiteness_agrees_with_the_float() {
    let mut pattern: u32 = 0;
    // a stride that is odd walks through all residues
    for _ in 0..200_000 {
        assert_eq!(is_finite(pattern), f32::from_bits(pattern).is_finite(), "{:#x}", pattern);
        pattern = pattern.wrapping_add(0x0001_5B0B);
    }
    for pattern in [0x7F7F_FFFFu32, 0x7F80_0000, 0x7F80_0001, 0xFF7F_FFFF, 0xFF80_0000] {
        assert_eq!(is_finite(pattern), f32::from_bits(pattern).is_finite());
    }
}

#[test]
fn bytes_become_samples_in_order() {
    let mut bytes = Vec::new();
    for v in [0.25f32, f32::NAN, -0.5] {
        bytes.extend_from_slice(&v.to_le_bytes());
    }
    // two bytes of an unfinished sample are left out
    bytes.extend_from_slice(&[1, 2]);
    let samples = samples_from_bytes(&bytes);
    assert_eq!(samples, vec![bits(0.25), 0, bits(-0.5)]);
    assert_eq!(samples_from_bytes(&[]), Vec::<u32>::new());
    assert_eq!(samples_from_bytes(&[1, 2, 3]), Vec::<u32>::new());
}

#[test]
fn block_read_takes_partial_reads() {
    let mut block = BlockRead::new(BLOCK_SAMPLES);
    assert_eq!(block.remaining(), 16384);
    assert!(matches!(block.on_read(ReadOutcome::Bytes(1000)), BlockStep::ReadMore));
    assert_eq!(block.bytes_filled(), 1000);
    assert_eq!(block.remaining(), 15384);
    match block.on_read(ReadOutcome::WouldBlock) {
        BlockStep::RetryAfter(ms) => assert_eq!(ms, 1),
        other => panic!("unexpected {:?}", other),
    }
    assert_eq!(block.bytes_filled(), 1000);
    match block.on_read(ReadOutcome::Bytes(15384)) {
        BlockStep::Done(n) => assert_eq!(n, 16384),
        other => panic!("unexpected {:?}", other),
    }
    assert_eq!(block.remaining(), 0);
}

#[test]
fn block_read_ends_at_end_of_stream_and_on_failure() {
    let mut block = BlockRead::new(4);
    assert!(matches!(block.on_read(ReadOutcome::Bytes(6)), BlockStep::ReadMore));
    match block.on_read(ReadOutcome::Bytes(0)) {
        BlockStep::Done(n) => assert_eq!(n, 6),
        other => panic!("unexpected {:?}", other),
    }
    let mut empty = BlockRead::new(4);
    match empty.on_read(ReadOutcome::Bytes(0)) {
        BlockStep::Done(n) => assert_eq!(n, 0),
        other => panic!("unexpected {:?}", other),
    }
    match empty.on_read(ReadOutcome::Failed("broken pipe".to_string())) {
        BlockStep::Failed(MediaError::Io(m)) => assert_eq!(m, "FFmpeg read error: broken pipe"),
        other => panic!("unexpected {:?}", other),
    }
    // more bytes than were asked for fill the block and no more
    let mut small = BlockRead::new(1);
    match small.on_read(ReadOutcome::Bytes(100)) {
        BlockStep::Done(n) => assert_eq!(n, 4),
        other => panic!("unexpected {:?}", other),
    }
    assert_eq!(BlockRead::new(usize::MAX).remaining(), usize::MAX);
}

#[test]
fn decode_loop_backpressure_and_stop() {
    let mut decode = DecodeLoop::new();
    assert!(matches!(decode.begin_round(false, 0), LoopAction::ReadBlock));
    assert!(matches!(decode.begin_round(false, 15), LoopAction::ReadBlock));
    match decode.begin_round(false, 16) {
        LoopAction::Sleep(ms) => assert_eq!(ms, 5),
        other => panic!("unexpected {:?}", other),
    }
    assert!(!decode.is_finished());
    assert!(matches!(decode.begin_round(true, 0), LoopAction::Finish));
    assert!(decode.is_finished());
    // finished for good
    assert!(matches!(decode.begin_round(false, 0), LoopAction::Finish));
    assert!(matches!(decode.on_block(BlockOutcome::Bytes(vec![0; 8])), LoopAction::Finish));
    assert!(matches!(decode.on_sent(true, 2), LoopAction::Finish));
    assert!(matches!(decode.on_process_checked(false), LoopAction::Finish));
    assert_eq!(decode.total_samples_sent(), 0);
}

#[test]
fn decode_loop_sends_and_counts() {
    let mut decode = DecodeLoop::new();
    let mut bytes = Vec::new();
    for v in [0.5f32, -0.5, f32::INFINITY] {
        bytes.extend_from_slice(&v.to_le_bytes());
    }
    match decode.on_block(BlockOutcome::Bytes(bytes)) {
        LoopAction::Send(chunk) => {
            assert_eq!(chunk, vec![bits(0.5), bits(-0.5), 0]);
            match decode.on_sent(true, chunk.len()) {
                LoopAction::Sleep(ms) => assert_eq!(ms, 0),
                other => panic!("unexpected {:?}", other),
            }
        }
        other => panic!("unexpected {:?}", other),
    }
    assert_eq!(decode.total_samples_sent(), 3);
    assert_eq!(decode.read_count(), 1);
    // the receiver is gone
    assert!(matches!(decode.on_sent(false, 3), LoopAction::Finish));
    assert!(decode.is_finished());
    assert_eq!(decode.total_samples_sent(), 3);
}

#[test]
fn decode_loop_gives_up_after_hundred_empty_reads() {
    let mut decode = DecodeLoop::new();
    for n in 1..100u32 {
        match decode.on_block(BlockOutcome::Bytes(vec![])) {
            LoopAction::Sleep(ms) => assert_eq!(ms, 10),
            other => panic!("unexpected {:?}", other),
        }
        assert_eq!(decode.consecutive_zero_reads(), n);
    }
    // a block with a sample resets the count
    assert!(matches!(decode.on_block(BlockOutcome::Bytes(vec![0; 4])), LoopAction::Send(_)));
    assert_eq!(decode.consecutive_zero_reads(), 0);
    for _ in 0..99 {
        assert!(matches!(decode.on_block(BlockOutcome::Bytes(vec![1, 2])), LoopAction::Sleep(_)));
    }
    assert!(!decode.is_finished());
    assert!(matches!(decode.on_block(BlockOutcome::Bytes(vec![])), LoopAction::Finish));
    assert!(decode.is_finished());
    assert_eq!(decode.consecutive_zero_reads(), 100);
}

#[test]
fn decode_loop_read_errors() {
    let mut decode = DecodeLoop::new();
    assert!(matches!(
        decode.on_block(BlockOutcome::Failed(MediaError::Io("x".to_string()))),
        LoopAction::CheckProcess
    ));
    match decode.on_process_checked(false) {
        LoopAction::Sleep(ms) => assert_eq!(ms, 50),
        other => panic!("unexpected {:?}", other),
    }
    assert!(!decode.is_finished());
    assert!(matches!(decode.on_process_checked(true), LoopAction::Finish));
    assert!(decode.is_finished());

    let mut never_started = DecodeLoop::new();
    never_started.on_spawn_failed();
    assert!(never_started.is_finished());
}

#[test]
fn full_pass_covers_the_expected_duration() {
    // ten seconds of stereo audio at 44.1 kHz, read in blocks of 4096 samples
    let sample_rate = 44_100u64;
    let channels = 2u64;
    let total = sample_rate * channels * 10;
    let mut left = total;
    let mut decode = DecodeLoop::new();
    let mut pending = 0usize;
    loop {
        match decode.begin_round(false, pending) {
            LoopAction::ReadBlock => {
                let n = left.min(BLOCK_SAMPLES as u64) as usize;
                left -= n as u64;
                match decode.on_block(BlockOutcome::Bytes(vec![0u8; n * 4])) {
                    LoopAction::Send(chunk) => {
                        pending += 1;
                        decode.on_sent(true, chunk.len());
                    }
                    LoopAction::Sleep(_) => {}
                    LoopAction::Finish => break,
                    other => panic!("unexpected {:?}", other),
                }
            }
            LoopAction::Sleep(_) => pending = 0, // the consumer drains the channel
            LoopAction::Finish => break,
            other => panic!("unexpected {:?}", other),
        }
    }
    assert!(decode.is_finished());
    let seconds = decode.total_samples_sent() as f64 / (sample_rate * channels) as f64;
    assert!(seconds / 10.0 >= 0.95);
    assert_eq!(decode.total_samples_sent(), total);
}

fn source_with(
    chunks: Vec<Vec<u32>>,
    finished: bool,
) -> (DirectAudioSource, crossbeam_channel::Sender<Vec<u32>>, Arc<AtomicBool>) {
    let (sender, receiver) = crossbeam_channel::unbounded();
    for chunk in chunks {
        sender.send(chunk).unwrap();
    }
    let flag = Arc::new(AtomicBool::new(finished));
    let source = DirectAudioSource::new(receiver, 44_100, 2, FinishedFlag::new(flag.clone()));
    (source, sender, flag)
}

#[test]
fn source_plays_chunks_in_order() {
    let (mut source, _sender, _flag) =
        source_with(vec![vec![bits(0.1), bits(0.2)], vec![bits(0.3)]], false);
    assert_eq!(source.sample_rate(), 44_100);
    assert_eq!(source.channels(), 2);
    assert_eq!(source.current_frame_len(), Some(8192));
    assert_eq!(source.total_duration(), None);
    assert!(source.needs_chunk());
    assert_eq!(source.next(), Some(bits(0.1)));
    assert!(!source.needs_chunk());
    assert_eq!(source.next(), Some(bits(0.2)));
    assert_eq!(source.next(), Some(bits(0.3)));
}

#[test]
fn source_underrun_gives_silence() {
    let (mut source, _sender, _flag) = source_with(vec![], false);
    // nothing to play, the bridge still runs: silence, not the end
    assert_eq!(source.next(), Some(SILENCE));
    assert_eq!(source.next(), Some(SILENCE));
}

#[test]
fn source_ends_when_finished_and_drained() {
    let (mut source, sender, flag) = source_with(vec![vec![bits(0.7)]], true);
    assert_eq!(source.next(), Some(bits(0.7)));
    assert_eq!(source.next(), None);
    drop(sender);
    drop(flag);
}

#[test]
fn source_ends_when_disconnected() {
    let (mut source, sender, _flag) = source_with(vec![vec![bits(0.7)]], false);
    drop(sender);
    assert_eq!(source.next(), Some(bits(0.7)));
    assert_eq!(source.next(), None);
}

#[test]
fn finished_flag_is_shared() {
    let (mut source, _sender, flag) = source_with(vec![], false);
    assert_eq!(source.next(), Some(SILENCE));
    FinishedFlag::new(flag.clone()).set();
    assert!(FinishedFlag::new(flag).is_set());
    assert_eq!(source.next(), None);
}

#[test]
fn refill_events() {
    let (mut source, _sender, _flag) = source_with(vec![], false);
    assert_eq!(source.refill(PullEvent::Chunk(vec![bits(0.4), bits(0.6)])), Some(bits(0.4)));
    assert_eq!(source.emit(), bits(0.6));
    assert_eq!(source.emit(), SILENCE);
    assert_eq!(source.refill(PullEvent::Chunk(vec![])), Some(SILENCE));
    assert_eq!(
        source.refill(PullEvent::TimedOut { finished: false, last_chunk: None }),
        Some(SILENCE)
    );
    assert_eq!(
        source.refill(PullEvent::TimedOut { finished: true, last_chunk: Some(vec![bits(0.9)]) }),
        Some(bits(0.9))
    );
    assert_eq!(source.refill(PullEvent::TimedOut { finished: true, last_chunk: None }), None);
    assert_eq!(source.refill(PullEvent::Disconnected), None);
}

#[test]
fn clamp_agrees_with_the_float() {
    let values = [
        0.0f32,
        -0.0,
        1.0,
        0.5,
        1.5,
        -0.5,
        2.0,
        -1.0,
        f32::MAX,
        f32::MIN,
        f32::INFINITY,
        f32::NEG_INFINITY,
        f32::MIN_POSITIVE,
        -f32::MIN_POSITIVE,
        0.999_999_94,
        1.000_000_1,
    ];
    for v in values {
        let clamped = clamp_volume(v.to_bits());
        assert_eq!(clamped, v.clamp(0.0, 1.0).to_bits(), "{}", v);
    }
    assert!(f32::from_bits(clamp_volume(f32::NAN.to_bits())).is_nan());
    assert_eq!(clamp_volume(0x7FC0_0001), 0x7FC0_0001);
    assert_eq!(clamp_volume(0xFFC0_0000), 0xFFC0_0000);
    assert_eq!(FULL_VOLUME, 1.0f32.to_bits());
    assert_eq!(NO_VOLUME, 0.0f32.to_bits());
}

#[test]
fn volume_mute_round_trip() {
    let mut player = AudioPlayer::new(&audio_info(Some(48_000), Some(1))).unwrap();
    assert_eq!(player.sample_rate(), 48_000);
    assert_eq!(player.channels(), 1);
    assert_eq!(player.volume(), bits(1.0));
    for x in [0.0f32, 0.25, 0.5, 0.73, 1.0] {
        assert_eq!(player.set_volume(bits(x)), Some(SinkCommand::SetVolume(bits(x))));
        assert_eq!(player.mute(), SinkCommand::SetVolume(bits(0.0)));
        assert!(player.is_muted());
        assert_eq!(player.volume(), bits(0.0));
        assert_eq!(player.unmute(), SinkCommand::SetVolume(bits(x)));
        assert!(!player.is_muted());
        assert_eq!(f32::from_bits(player.volume()), x);
    }
    // out of range: the clamped volume comes back
    player.set_volume(bits(1.5));
    player.mute();
    player.unmute();
    assert_eq!(f32::from_bits(player.volume()), 1.0);
    player.set_volume(bits(-3.0));
    assert_eq!(f32::from_bits(player.volume()), 0.0);
}

#[test]
fn volume_set_while_muted_waits_for_unmute() {
    let mut player = AudioPlayer::new(&audio_info(None, None)).unwrap();
    assert_eq!(player.sample_rate(), 44_100);
    assert_eq!(player.channels(), 2);
    assert_eq!(player.toggle_mute(), SinkCommand::SetVolume(bits(0.0)));
    assert_eq!(player.set_volume(bits(0.3)), None);
    assert_eq!(player.volume(), bits(0.0));
    assert_eq!(player.toggle_mute(), SinkCommand::SetVolume(bits(0.3)));
    assert_eq!(player.volume(), bits(0.3));
}

#[test]
fn transport_commands() {
    let mut player = AudioPlayer::new(&audio_info(None, None)).unwrap();
    assert_eq!(player.play(), SinkCommand::Play);
    assert_eq!(player.pause(), SinkCommand::Pause);
    assert_eq!(player.resume(), SinkCommand::Play);
    assert!(!player.stop_requested());
    assert_eq!(player.stop(), SinkCommand::Stop);
    assert!(player.stop_requested());
}

#[test]
fn audio_player_needs_an_audio_stream() {
    match AudioPlayer::new(&MediaInfo::default()) {
        Err(MediaError::Audio(m)) => assert_eq!(m, "Media file has no audio stream"),
        Ok(_) => panic!("expected an error"),
        Err(other) => panic!("unexpected {:?}", other),
    }
}

#[test]
fn decode_process_arguments() {
    let args = decode_command_args("/tmp/a b.mkv", 44_100, 2);
    assert_eq!(
        args,
        vec![
            "-i", "/tmp/a b.mkv", "-vn", "-f", "f32le", "-acodec", "pcm_f32le", "-ar", "44100",
            "-ac", "2", "-loglevel", "error", "-"
        ]
    );
    let args = decode_command_args("x", 0, 65_535);
    assert_eq!(args[8], "0");
    assert_eq!(args[10], "65535");
}
