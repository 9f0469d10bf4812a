use std::time::Duration;

use ascii_term::media_core::errors::MediaError;
use ascii_term::media_core::media::{MediaFile, MediaInfo, MediaType};
use ascii_term::media_core::pipeline::{
    DecodeEvent, FramePoll, Pipeline, PipelineBuilder, PipelineConfig,
};
use ascii_term::media_core::video::frame::{FrameFormat, VideoFrame};

fn frame(n: i64) -> VideoFrame {
    VideoFrame::new(
        vec![n as u8, 0, 0],
        1,
        1,
        FrameFormat::RGB8,
        Duration::from_millis(33 * n as u64),
        n,
    )
}

fn video_file() -> MediaFile {
    let mut info = MediaInfo::default();
    info.has_video = true;
    MediaFile::open("clip.mp4".to_string(), info, Some(0), None)
}

fn started(capacity: usize) -> Pipeline {
    let mut pipeline = PipelineBuilder::new().buffer_size(capacity).build();
    pipeline.set_media(video_file()).unwrap();
    pipeline.start().unwrap();
    pipeline
}

fn expect_frame(poll: FramePoll) -> i64 {
    match poll {
        FramePoll::Frame(f) => f.pts,
        other => panic!("expected a frame, got {:?}", other),
    }
}

#[test]
fn test_pipeline_creation() {
    let pipeline = PipelineBuilder::new().buffer_size(5).build();

    assert_eq!(pipeline.config().buffer_size, 5);
    assert_eq!(pipeline.buffer_size(), 0);
    assert!(!pipeline.is_running());
    assert!(!pipeline.is_eof());
}

#[test]
fn test_pipeline_state() {
    let mut pipeline = Pipeline::new(PipelineConfig::default());

    assert!(!pipeline.is_running());
    assert!(!pipeline.is_finished());

    pipeline.start().unwrap();
    assert!(pipeline.is_running());

    pipeline.stop().unwrap();
    assert!(!pipeline.is_running());
}

#[test]
fn default_config_and_builder() {
    let config = PipelineConfig::default();
    assert_eq!(config.buffer_size, 10);
    assert!(config.enable_threading);
    assert_eq!(config.max_decode_threads, 4);

    let pipeline = PipelineBuilder::new()
        .buffer_size(3)
        .enable_threading(false)
        .max_decode_threads(2)
        .build();
    assert_eq!(pipeline.config().buffer_size, 3);
    assert!(!pipeline.config().enable_threading);
    assert_eq!(pipeline.config().max_decode_threads, 2);
    let by_default = PipelineBuilder::default().build();
    assert_eq!(by_default.config().buffer_size, 10);
}

#[test]
fn poll_without_media_or_decoder_fails() {
    let mut pipeline = PipelineBuilder::new().build();
    match pipeline.next_frame() {
        Err(MediaError::Pipeline(m)) => assert_eq!(m, "No media file set"),
        other => panic!("unexpected {:?}", other),
    }

    let mut info = MediaInfo::default();
    info.has_audio = true;
    let audio_only = MediaFile::open("song.mp3".to_string(), info, None, Some(0));
    assert_eq!(audio_only.media_type, MediaType::Audio);
    pipeline.set_media(audio_only).unwrap();
    match pipeline.next_frame() {
        Err(MediaError::Pipeline(m)) => assert_eq!(m, "No decoder available"),
        other => panic!("unexpected {:?}", other),
    }
}

#[test]
fn set_media_without_video_stream_fails() {
    let mut pipeline = PipelineBuilder::new().build();
    let mut info = MediaInfo::default();
    info.has_video = true;
    let broken = MediaFile::open("clip.mp4".to_string(), info, None, None);
    match pipeline.set_media(broken) {
        Err(MediaError::Video(m)) => assert_eq!(m, "No video stream found"),
        other => panic!("unexpected {:?}", other),
    }
    // nothing was bound
    assert!(matches!(pipeline.next_frame(), Err(MediaError::Pipeline(_))));
}

#[test]
fn top_up_fills_to_capacity_then_delivers_in_order() {
    let mut pipeline = started(3);
    let mut fed = 0;
    loop {
        match pipeline.next_frame().unwrap() {
            FramePoll::NeedPacket => {
                assert!(pipeline.buffer_size() < 3);
                pipeline.on_decode_event(DecodeEvent::Frame(frame(fed))).unwrap();
                fed += 1;
                assert!(pipeline.buffer_size() <= 3);
            }
            FramePoll::Frame(f) => {
                // the buffer was filled before the first frame came out
                assert_eq!(fed, 3);
                assert_eq!(f.pts, 0);
                break;
            }
            other => panic!("unexpected {:?}", other),
        }
    }
    assert_eq!(pipeline.buffer_size(), 2);
    assert!(!pipeline.is_buffer_full());
    assert_eq!(expect_frame(pipeline.next_frame().unwrap()), 1);
    assert_eq!(expect_frame(pipeline.next_frame().unwrap()), 2);
    // empty again: the next poll begins a new top-up
    assert!(matches!(pipeline.next_frame().unwrap(), FramePoll::NeedPacket));
}

#[test]
fn buffer_never_exceeds_capacity() {
    for capacity in 1..6usize {
        let mut pipeline = started(capacity);
        let mut next = 0;
        let mut delivered = 0;
        while delivered < 20 {
            match pipeline.next_frame().unwrap() {
                FramePoll::NeedPacket => {
                    // every other packet gives no frame
                    if next % 2 == 0 {
                        pipeline.on_decode_event(DecodeEvent::NoFrame).unwrap();
                    } else {
                        pipeline.on_decode_event(DecodeEvent::Frame(frame(next))).unwrap();
                    }
                    next += 1;
                }
                FramePoll::Frame(_) => delivered += 1,
                other => panic!("unexpected {:?}", other),
            }
            assert!(pipeline.buffer_size() <= capacity);
        }
    }
}

#[test]
fn zero_capacity_is_never_ready() {
    let mut pipeline = started(0);
    assert!(matches!(pipeline.next_frame().unwrap(), FramePoll::NotReady));
    assert!(matches!(pipeline.next_frame().unwrap(), FramePoll::NotReady));
    assert!(!pipeline.is_finished());
    assert!(pipeline.is_buffer_full());
}

#[test]
fn end_of_stream_flushes_and_finishes() {
    let mut pipeline = started(4);
    assert!(matches!(pipeline.next_frame().unwrap(), FramePoll::NeedPacket));
    pipeline.on_decode_event(DecodeEvent::Frame(frame(0))).unwrap();
    assert!(matches!(pipeline.next_frame().unwrap(), FramePoll::NeedPacket));
    pipeline
        .on_decode_event(DecodeEvent::EndOfStream(vec![frame(1), frame(2)]))
        .unwrap();
    assert!(pipeline.is_eof());
    assert!(!pipeline.is_finished());
    assert_eq!(pipeline.buffer_size(), 3);
    assert_eq!(expect_frame(pipeline.next_frame().unwrap()), 0);
    assert_eq!(expect_frame(pipeline.next_frame().unwrap()), 1);
    assert_eq!(expect_frame(pipeline.next_frame().unwrap()), 2);
    assert!(pipeline.is_finished());
    // finished is reported again and again
    for _ in 0..5 {
        assert!(matches!(pipeline.next_frame().unwrap(), FramePoll::Finished));
        assert!(pipeline.is_finished());
    }
    // an event that was not asked for is refused and changes nothing
    match pipeline.on_decode_event(DecodeEvent::Frame(frame(9))) {
        Err(MediaError::Pipeline(m)) => assert_eq!(m, "No packet was requested"),
        other => panic!("unexpected {:?}", other),
    }
    assert!(matches!(pipeline.next_frame().unwrap(), FramePoll::Finished));
    // stop keeps the stream ended
    pipeline.stop().unwrap();
    assert!(pipeline.is_finished());
    assert!(matches!(pipeline.next_frame().unwrap(), FramePoll::Finished));
}

#[test]
fn flush_may_overflow_the_capacity() {
    let mut pipeline = started(2);
    assert!(matches!(pipeline.next_frame().unwrap(), FramePoll::NeedPacket));
    pipeline.on_decode_event(DecodeEvent::Frame(frame(0))).unwrap();
    assert!(matches!(pipeline.next_frame().unwrap(), FramePoll::NeedPacket));
    pipeline
        .on_decode_event(DecodeEvent::EndOfStream(vec![frame(1), frame(2), frame(3)]))
        .unwrap();
    // every flushed frame is kept
    assert_eq!(pipeline.buffer_size(), 4);
    for n in 0..4 {
        assert_eq!(expect_frame(pipeline.next_frame().unwrap()), n);
    }
    assert!(matches!(pipeline.next_frame().unwrap(), FramePoll::Finished));
}

#[test]
fn flush_error_ends_the_stream() {
    let mut pipeline = started(2);
    assert!(matches!(pipeline.next_frame().unwrap(), FramePoll::NeedPacket));
    pipeline
        .on_decode_event(DecodeEvent::FlushError("flush failed".to_string()))
        .unwrap();
    assert!(pipeline.is_eof());
    assert!(matches!(pipeline.next_frame().unwrap(), FramePoll::Finished));
}

#[test]
fn read_error_is_handed_back() {
    let mut pipeline = started(2);
    assert!(matches!(pipeline.next_frame().unwrap(), FramePoll::NeedPacket));
    match pipeline.on_decode_event(DecodeEvent::ReadError(MediaError::Io("disk".to_string()))) {
        Err(MediaError::Io(m)) => assert_eq!(m, "disk"),
        other => panic!("unexpected {:?}", other),
    }
    assert!(!pipeline.is_eof());
    // the top-up was given up; the next poll begins another
    assert!(matches!(pipeline.next_frame().unwrap(), FramePoll::NeedPacket));
}

#[test]
fn corrupt_packet_does_not_halt_delivery() {
    let mut pipeline = started(8);
    let events = vec![
        DecodeEvent::Frame(frame(0)),
        DecodeEvent::Frame(frame(1)),
        DecodeEvent::DecodeError("corrupt packet".to_string()),
        DecodeEvent::Frame(frame(3)),
        DecodeEvent::Frame(frame(4)),
        DecodeEvent::EndOfStream(vec![]),
    ];
    let mut events = events.into_iter();
    let mut delivered = Vec::new();
    loop {
        match pipeline.next_frame().unwrap() {
            FramePoll::NeedPacket => {
                pipeline.on_decode_event(events.next().unwrap()).unwrap();
            }
            FramePoll::Frame(f) => delivered.push(f.pts),
            FramePoll::Finished => break,
            FramePoll::NotReady => panic!("not ready"),
        }
    }
    assert_eq!(delivered, vec![0, 1, 3, 4]);
}

#[test]
fn loop_restart_resets_end_of_stream_and_refills() {
    let mut pipeline = started(3);
    assert!(matches!(pipeline.next_frame().unwrap(), FramePoll::NeedPacket));
    pipeline.on_decode_event(DecodeEvent::EndOfStream(vec![frame(0)])).unwrap();
    assert_eq!(expect_frame(pipeline.next_frame().unwrap()), 0);
    assert!(pipeline.is_finished());

    // restart: stop, bind the reopened medium, start
    pipeline.stop().unwrap();
    pipeline.set_media(video_file()).unwrap();
    pipeline.start().unwrap();
    assert!(!pipeline.is_eof());
    assert!(!pipeline.is_finished());
    assert_eq!(pipeline.buffer_size(), 0);

    for n in 0..3 {
        assert!(matches!(pipeline.next_frame().unwrap(), FramePoll::NeedPacket));
        pipeline.on_decode_event(DecodeEvent::Frame(frame(n))).unwrap();
    }
    assert_eq!(pipeline.buffer_size(), 3);
    assert!(pipeline.is_buffer_full());
    assert_eq!(expect_frame(pipeline.next_frame().unwrap()), 0);
}

#[test]
fn start_clears_buffer_and_end_of_stream() {
    let mut pipeline = started(4);
    assert!(matches!(pipeline.next_frame().unwrap(), FramePoll::NeedPacket));
    pipeline
        .on_decode_event(DecodeEvent::EndOfStream(vec![frame(0), frame(1)]))
        .unwrap();
    assert_eq!(pipeline.buffer_size(), 2);
    pipeline.start().unwrap();
    assert_eq!(pipeline.buffer_size(), 0);
    assert!(!pipeline.is_eof());
    assert!(pipeline.is_running());
}

#[test]
fn media_error_messages() {
    assert_eq!(MediaError::Ffmpeg("x".to_string()).message(), "FFmpeg error: x");
    assert_eq!(MediaError::OpenCV("x".to_string()).message(), "OpenCV error: x");
    assert_eq!(MediaError::Image("x".to_string()).message(), "Image processing error: x");
    assert_eq!(MediaError::Audio("x".to_string()).message(), "Audio error: x");
    assert_eq!(MediaError::Video("x".to_string()).message(), "Video error: x");
    assert_eq!(MediaError::Io("x".to_string()).message(), "IO error: x");
    assert_eq!(MediaError::InvalidFormat("x".to_string()).message(), "Invalid format: x");
    assert_eq!(MediaError::UnsupportedCodec("x".to_string()).message(), "Unsupported codec: x");
    assert_eq!(MediaError::Pipeline("x".to_string()).message(), "Pipeline error: x");
    assert_eq!(MediaError::Config("x".to_string()).message(), "Configuration error: x");
    assert_eq!(
        MediaError::ResourceNotFound("x".to_string()).message(),
        "Resource not found: x"
    );
}

#[test]
fn events_from_the_decoder() {
    match DecodeEvent::from_decode(Ok(Some(frame(4)))) {
        DecodeEvent::Frame(f) => assert_eq!(f.pts, 4),
        other => panic!("unexpected {:?}", other),
    }
    assert!(matches!(DecodeEvent::from_decode(Ok(None)), DecodeEvent::NoFrame));
    match DecodeEvent::from_decode(Err(MediaError::Ffmpeg("bad packet".to_string()))) {
        DecodeEvent::DecodeError(text) => assert_eq!(text, "FFmpeg error: bad packet"),
        other => panic!("unexpected {:?}", other),
    }
    match DecodeEvent::from_flush(Ok(vec![frame(1), frame(2)])) {
        DecodeEvent::EndOfStream(frames) => assert_eq!(frames.len(), 2),
        other => panic!("unexpected {:?}", other),
    }
    match DecodeEvent::from_flush(Err(MediaError::Video("stuck".to_string()))) {
        DecodeEvent::FlushError(text) => assert_eq!(text, "Video error: stuck"),
        other => panic!("unexpected {:?}", other),
    }
}
