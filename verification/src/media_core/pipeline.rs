use crate::media_core::errors::{is_pipeline_error, is_video_error, MediaError};
use crate::media_core::media::MediaFile;
use crate::media_core::video::frame::VideoFrame;
use std::collections::VecDeque;
use vstd::prelude::*;
use vstd::string::*;

verus! {

/// How a pipeline is set up. `buffer_size` is the capacity of the prefetch
/// buffer, in frames.
#[derive(Debug, Clone, Copy)]
pub struct PipelineConfig {
    pub buffer_size: usize,
    pub enable_threading: bool,
    pub max_decode_threads: usize,
}

impl Default for PipelineConfig {
    fn default() -> (config: Self)
        ensures
            config.buffer_size == 10,
            config.enable_threading,
            config.max_decode_threads == 4,
    {
        Self { buffer_size: 10, enable_threading: true, max_decode_threads: 4 }
    }
}

/// What the decode engine reports after the pipeline asked for one packet.
#[derive(Debug)]
pub enum DecodeEvent {
    /// A packet was read and a frame came out of the decoder.
    Frame(VideoFrame),
    /// A packet was read and no frame came out: the packet belongs to
    /// another stream, or the decoder needs more input first.
    NoFrame,
    /// A packet was read and the decoder rejected it. The stream goes on.
    DecodeError(String),
    /// No packet is left. The decoder was flushed and gave these frames.
    EndOfStream(Vec<VideoFrame>),
    /// No packet is left, and flushing the decoder failed.
    FlushError(String),
    /// Reading the packet failed for a reason other than the end of the
    /// stream.
    ReadError(MediaError),
}

impl DecodeEvent {
    /// What the pipeline is told after a packet was read and handed to the
    /// decoder: the frame it gave, or that it gave none, or that it
    /// rejected the packet, with the text of its error.
    pub fn from_decode(decoded: Result<Option<VideoFrame>, MediaError>) -> (event: Self)
        ensures
            match decoded {
                Ok(Some(frame)) => event == DecodeEvent::Frame(frame),
                Ok(None) => event == DecodeEvent::NoFrame,
                Err(error) => event matches DecodeEvent::DecodeError(text) && text@
                    == error.prefix() + error.detail(),
            },
    {
        match decoded {
            Ok(Some(frame)) => DecodeEvent::Frame(frame),
            Ok(None) => DecodeEvent::NoFrame,
            Err(error) => DecodeEvent::DecodeError(error.message()),
        }
    }

    /// What the pipeline is told when no packet is left and the decoder was
    /// flushed: the frames the flush gave, or that it failed, with the text
    /// of its error.
    pub fn from_flush(flushed: Result<Vec<VideoFrame>, MediaError>) -> (event: Self)
        ensures
            match flushed {
                Ok(frames) => event == DecodeEvent::EndOfStream(frames),
                Err(error) => event matches DecodeEvent::FlushError(text) && text@
                    == error.prefix() + error.detail(),
            },
    {
        match flushed {
            Ok(frames) => DecodeEvent::EndOfStream(frames),
            Err(error) => DecodeEvent::FlushError(error.message()),
        }
    }
}

/// What a call of `next_frame` hands back.
#[derive(Debug)]
pub enum FramePoll {
    /// The oldest buffered frame.
    Frame(VideoFrame),
    /// The buffer is being topped up: read and decode one packet, report it
    /// with `on_decode_event`, and call `next_frame` again.
    NeedPacket,
    /// No frame yet, and the stream has not ended.
    NotReady,
    /// The stream has ended and every frame was handed out.
    Finished,
}

/// The pipeline as contracts see it.
pub struct PipelineState {
    /// The frames that are ready, oldest first.
    pub buffer: Seq<VideoFrame>,
    /// The configured capacity of the buffer.
    pub capacity: nat,
    pub running: bool,
    /// The packet source is exhausted.
    pub eof: bool,
    pub media_bound: bool,
    pub decoder_bound: bool,
    /// A top-up of the buffer is under way.
    pub filling: bool,
}

/// The six ways a poll can end.
pub enum PollKind {
    Frame,
    NeedPacket,
    NotReady,
    Finished,
    NoMedia,
    NoDecoder,
}

/// One operation on a pipeline.
pub enum PipelineStep {
    Start,
    Stop,
    SetMedia { has_video: bool, video_stream: Option<usize> },
    Poll,
    Feed(DecodeEvent),
}

impl PipelineState {
    /// A pipeline that was just made with the given capacity.
    pub open spec fn fresh(capacity: nat) -> Self {
        PipelineState {
            buffer: Seq::empty(),
            capacity,
            running: false,
            eof: false,
            media_bound: false,
            decoder_bound: false,
            filling: false,
        }
    }

    pub open spec fn within_capacity(self) -> bool {
        self.buffer.len() <= self.capacity
    }

    /// The stream has ended and the buffer is drained.
    pub open spec fn finished(self) -> bool {
        self.eof && self.buffer.len() == 0
    }

    /// The pipeline has asked for a packet and has room for its frame.
    pub open spec fn wants_packet(self) -> bool {
        self.filling && self.buffer.len() < self.capacity && !self.eof
    }

    pub open spec fn started(self) -> Self {
        PipelineState { running: true, buffer: Seq::empty(), eof: false, filling: false, ..self }
    }

    pub open spec fn stopped(self) -> Self {
        PipelineState { running: false, buffer: Seq::empty(), filling: false, ..self }
    }

    /// A medium said to have video can only be bound with a video stream.
    pub open spec fn media_accepted(has_video: bool, video_stream: Option<usize>) -> bool {
        has_video ==> video_stream is Some
    }

    pub open spec fn media_set(self, has_video: bool, video_stream: Option<usize>) -> Self {
        if Self::media_accepted(has_video, video_stream) {
            PipelineState {
                media_bound: true,
                decoder_bound: has_video || self.decoder_bound,
                eof: false,
                ..self
            }
        } else {
            self
        }
    }

    pub open spec fn poll_kind(self) -> PollKind {
        if !self.filling && self.buffer.len() > 0 {
            PollKind::Frame
        } else if !self.filling && self.eof {
            PollKind::Finished
        } else if !self.filling && !self.media_bound {
            PollKind::NoMedia
        } else if !self.filling && !self.decoder_bound {
            PollKind::NoDecoder
        } else if self.buffer.len() < self.capacity && !self.eof {
            PollKind::NeedPacket
        } else if self.buffer.len() > 0 {
            PollKind::Frame
        } else if self.eof {
            PollKind::Finished
        } else {
            PollKind::NotReady
        }
    }

    pub open spec fn polled(self) -> Self {
        match self.poll_kind() {
            PollKind::Frame => PipelineState {
                buffer: self.buffer.drop_first(),
                filling: false,
                ..self
            },
            PollKind::NeedPacket => PipelineState { filling: true, ..self },
            PollKind::NotReady | PollKind::Finished => PipelineState { filling: false, ..self },
            PollKind::NoMedia | PollKind::NoDecoder => self,
        }
    }

    pub open spec fn fed(self, event: DecodeEvent) -> Self {
        if !self.wants_packet() {
            self
        } else {
            match event {
                DecodeEvent::Frame(frame) => PipelineState {
                    buffer: self.buffer.push(frame),
                    ..self
                },
                DecodeEvent::NoFrame => self,
                DecodeEvent::DecodeError(_) => self,
                DecodeEvent::EndOfStream(frames) => PipelineState {
                    eof: true,
                    buffer: self.buffer + frames@,
                    ..self
                },
                DecodeEvent::FlushError(_) => PipelineState { eof: true, ..self },
                DecodeEvent::ReadError(_) => PipelineState { filling: false, ..self },
            }
        }
    }

    /// The event is the end of the stream with more flushed frames than the
    /// buffer has room for.
    pub open spec fn flush_overflows(self, event: DecodeEvent) -> bool {
        &&& self.wants_packet()
        &&& event matches DecodeEvent::EndOfStream(frames)
        &&& self.buffer.len() + frames@.len() > self.capacity
    }

    pub open spec fn step(self, op: PipelineStep) -> Self {
        match op {
            PipelineStep::Start => self.started(),
            PipelineStep::Stop => self.stopped(),
            PipelineStep::SetMedia { has_video, video_stream } => self.media_set(
                has_video,
                video_stream,
            ),
            PipelineStep::Poll => self.polled(),
            PipelineStep::Feed(event) => self.fed(event),
        }
    }

    /// The state after all of `ops`, in order.
    pub open spec fn run(self, ops: Seq<PipelineStep>) -> Self
        decreases ops.len(),
    {
        if ops.len() == 0 {
            self
        } else {
            self.step(ops[0]).run(ops.drop_first())
        }
    }

    /// None of `ops` is a flush that overflows the buffer it meets.
    pub open spec fn no_flush_overflows(self, ops: Seq<PipelineStep>) -> bool
        decreases ops.len(),
    {
        if ops.len() == 0 {
            true
        } else {
            &&& !(ops[0] matches PipelineStep::Feed(event) && self.flush_overflows(event))
            &&& self.step(ops[0]).no_flush_overflows(ops.drop_first())
        }
    }

    /// No operation in `ops` restarts the pipeline or binds a medium.
    pub open spec fn no_restart(ops: Seq<PipelineStep>) -> bool {
        forall|i: int|
            0 <= i < ops.len() ==> !(#[trigger] ops[i] is Start) && !(ops[i] is SetMedia)
    }

    /// The state after one frame event for each of `frames`, in order.
    pub open spec fn fed_frames(self, frames: Seq<VideoFrame>) -> Self
        decreases frames.len(),
    {
        if frames.len() == 0 {
            self
        } else {
            self.fed(DecodeEvent::Frame(frames[0])).fed_frames(frames.drop_first())
        }
    }
}

/// The result of a poll says what `state.poll_kind()` says, with the frame or
/// the error that belongs to it.
pub open spec fn poll_reports(result: Result<FramePoll, MediaError>, state: PipelineState) -> bool {
    match state.poll_kind() {
        PollKind::Frame => result matches Ok(FramePoll::Frame(frame)) && frame == state.buffer[0],
        PollKind::NeedPacket => result matches Ok(FramePoll::NeedPacket),
        PollKind::NotReady => result matches Ok(FramePoll::NotReady),
        PollKind::Finished => result matches Ok(FramePoll::Finished),
        PollKind::NoMedia => result matches Err(e) && is_pipeline_error(e, "No media file set"@),
        PollKind::NoDecoder => result matches Err(e) && is_pipeline_error(
            e,
            "No decoder available"@,
        ),
    }
}

/// The result of reporting `event` to a pipeline in `state`: an event that
/// was not asked for is refused, a read error is handed on, and everything
/// else is taken in.
pub open spec fn feed_reports(
    result: Result<(), MediaError>,
    state: PipelineState,
    event: DecodeEvent,
) -> bool {
    if !state.wants_packet() {
        result matches Err(e) && is_pipeline_error(e, "No packet was requested"@)
    } else {
        match event {
            DecodeEvent::ReadError(error) => result == Err::<(), MediaError>(error),
            _ => result is Ok,
        }
    }
}

/// A bounded first-in-first-out buffer of decoded frames between the decode
/// engine and the renderer.
///
/// The pipeline decides; the caller does the decoding. `next_frame` hands
/// out the oldest frame, or asks for a packet while it tops the buffer up;
/// `on_decode_event` takes in what the engine made of that packet.
pub struct Pipeline {
    config: PipelineConfig,
    decoder: Option<usize>,
    media_file: Option<MediaFile>,
    frame_buffer: VecDeque<VideoFrame>,
    is_running: bool,
    is_eof: bool,
    filling: bool,
}

impl View for Pipeline {
    type V = PipelineState;

    closed spec fn view(&self) -> PipelineState {
        PipelineState {
            buffer: self.frame_buffer@,
            capacity: self.config.buffer_size as nat,
            running: self.is_running,
            eof: self.is_eof,
            media_bound: self.media_file is Some,
            decoder_bound: self.decoder is Some,
            filling: self.filling,
        }
    }
}

impl Pipeline {
    /// The configuration the pipeline was made with.
    pub closed spec fn spec_config(&self) -> PipelineConfig {
        self.config
    }

    /// The medium that is bound, if any.
    pub closed spec fn spec_media(&self) -> Option<MediaFile> {
        self.media_file
    }

    /// The stream index of the bound decoder, if any.
    pub closed spec fn spec_decoder(&self) -> Option<usize> {
        self.decoder
    }

    pub fn new(config: PipelineConfig) -> (pipeline: Self)
        ensures
            pipeline@ == PipelineState::fresh(config.buffer_size as nat),
            pipeline.spec_config() == config,
            pipeline.spec_media() is None,
            pipeline.spec_decoder() is None,
    {
        Self {
            config,
            decoder: None,
            media_file: None,
            frame_buffer: VecDeque::new(),
            is_running: false,
            is_eof: false,
            filling: false,
        }
    }

    #[verifier::when_used_as_spec(spec_config)]
    pub fn config(&self) -> (config: PipelineConfig)
        ensures
            config == self.spec_config(),
            config.buffer_size == self@.capacity,
    {
        self.config
    }

    /// Binds an opened medium. If it has video, a decoder is bound to its
    /// best video stream; without one the call fails and changes nothing. A
    /// medium without video is bound as it is, and a decoder bound earlier
    /// stays.
    pub fn set_media(&mut self, media_file: MediaFile) -> (result: Result<(), MediaError>)
        ensures
            final(self)@ == old(self)@.media_set(media_file.info.has_video, media_file.video_stream),
            final(self).spec_config() == old(self).spec_config(),
            PipelineState::media_accepted(media_file.info.has_video, media_file.video_stream) ==> {
                &&& result is Ok
                &&& final(self).spec_media() == Some(media_file)
                &&& final(self).spec_decoder() == if media_file.info.has_video {
                    media_file.video_stream
                } else {
                    old(self).spec_decoder()
                }
            },
            !PipelineState::media_accepted(media_file.info.has_video, media_file.video_stream) ==> {
                &&& *final(self) == *old(self)
                &&& result matches Err(e) && is_video_error(e, "No video stream found"@)
            },
    {
        if media_file.info.has_video {
            match media_file.video_stream {
                Some(index) => {
                    self.decoder = Some(index);
                },
                None => {
                    return Err(MediaError::Video(String::from_str("No video stream found")));
                },
            }
        }
        self.media_file = Some(media_file);
        self.is_eof = false;
        Ok(())
    }

    /// Starts a playback pass: the buffer is cleared and the end-of-stream
    /// mark is reset.
    pub fn start(&mut self) -> (result: Result<(), MediaError>)
        ensures
            result is Ok,
            final(self)@ == old(self)@.started(),
            final(self).spec_config() == old(self).spec_config(),
            final(self).spec_media() == old(self).spec_media(),
            final(self).spec_decoder() == old(self).spec_decoder(),
    {
        self.is_running = true;
        self.frame_buffer.clear();
        self.is_eof = false;
        self.filling = false;
        Ok(())
    }

    /// Stops the pass: the buffer is cleared. The bound medium and the
    /// end-of-stream mark stay as they are.
    pub fn stop(&mut self) -> (result: Result<(), MediaError>)
        ensures
            result is Ok,
            final(self)@ == old(self)@.stopped(),
            final(self).spec_config() == old(self).spec_config(),
            final(self).spec_media() == old(self).spec_media(),
            final(self).spec_decoder() == old(self).spec_decoder(),
    {
        self.is_running = false;
        self.frame_buffer.clear();
        self.filling = false;
        Ok(())
    }

    /// Hands out the oldest buffered frame. With an empty buffer and the
    /// stream not ended it begins a top-up and asks for packets until the
    /// buffer is full or the stream ends, then hands out the oldest frame, or
    /// says that there is none yet, or that the stream is finished.
    pub fn next_frame(&mut self) -> (result: Result<FramePoll, MediaError>)
        ensures
            final(self)@ == old(self)@.polled(),
            poll_reports(result, old(self)@),
            final(self).spec_config() == old(self).spec_config(),
            final(self).spec_media() == old(self).spec_media(),
            final(self).spec_decoder() == old(self).spec_decoder(),
    {
        if !self.filling {
            if let Some(frame) = self.frame_buffer.pop_front() {
                return Ok(FramePoll::Frame(frame));
            }
            if self.is_eof {
                return Ok(FramePoll::Finished);
            }
            if self.media_file.is_none() {
                return Err(MediaError::Pipeline(String::from_str("No media file set")));
            }
            if self.decoder.is_none() {
                return Err(MediaError::Pipeline(String::from_str("No decoder available")));
            }
            self.filling = true;
        }
        if self.frame_buffer.len() < self.config.buffer_size && !self.is_eof {
            return Ok(FramePoll::NeedPacket);
        }
        self.filling = false;
        match self.frame_buffer.pop_front() {
            Some(frame) => Ok(FramePoll::Frame(frame)),
            None => {
                if self.is_eof {
                    Ok(FramePoll::Finished)
                } else {
                    Ok(FramePoll::NotReady)
                }
            },
        }
    }

    /// Takes in what the engine made of the packet that `next_frame` asked
    /// for. A frame is appended; a packet without a frame and a packet the
    /// decoder rejected change nothing; the end of the stream sets the
    /// end-of-stream mark and appends every flushed frame; a read error ends
    /// the top-up and is handed back. An event that was not asked for is
    /// refused and changes nothing.
    pub fn on_decode_event(&mut self, event: DecodeEvent) -> (result: Result<(), MediaError>)
        ensures
            final(self)@ == old(self)@.fed(event),
            feed_reports(result, old(self)@, event),
            final(self).spec_config() == old(self).spec_config(),
            final(self).spec_media() == old(self).spec_media(),
            final(self).spec_decoder() == old(self).spec_decoder(),
    {
        if !(self.filling && self.frame_buffer.len() < self.config.buffer_size && !self.is_eof) {
            return Err(MediaError::Pipeline(String::from_str("No packet was requested")));
        }
        match event {
            DecodeEvent::Frame(frame) => {
                self.frame_buffer.push_back(frame);
                Ok(())
            },
            DecodeEvent::NoFrame => Ok(()),
            DecodeEvent::DecodeError(_) => Ok(()),
            DecodeEvent::EndOfStream(frames) => {
                self.is_eof = true;
                let ghost before = self.frame_buffer@;
                let ghost all = frames@;
                for frame in it: frames
                    invariant
                        it.seq() == all,
                        self.frame_buffer@ == before + all.take(it.index() as int),
                        self.config == old(self).config,
                        self.media_file == old(self).media_file,
                        self.decoder == old(self).decoder,
                        self.is_running == old(self).is_running,
                        self.filling == old(self).filling,
                        self.is_eof,
                {
                    assert(all.take(it.index() + 1) == all.take(it.index() as int).push(frame));
                    self.frame_buffer.push_back(frame);
                }
                assert(all.take(all.len() as int) == all);
                Ok(())
            },
            DecodeEvent::FlushError(_) => {
                self.is_eof = true;
                Ok(())
            },
            DecodeEvent::ReadError(error) => {
                self.filling = false;
                Err(error)
            },
        }
    }

    /// The number of frames in the buffer.
    pub fn buffer_size(&self) -> (len: usize)
        ensures
            len == self@.buffer.len(),
    {
        self.frame_buffer.len()
    }

    pub fn is_buffer_full(&self) -> (full: bool)
        ensures
            full == (self@.buffer.len() >= self@.capacity),
    {
        self.frame_buffer.len() >= self.config.buffer_size
    }

    pub fn is_running(&self) -> (running: bool)
        ensures
            running == self@.running,
    {
        self.is_running
    }

    pub fn is_eof(&self) -> (eof: bool)
        ensures
            eof == self@.eof,
    {
        self.is_eof
    }

    /// The stream has ended and every frame was handed out.
    pub fn is_finished(&self) -> (finished: bool)
        ensures
            finished == self@.finished(),
    {
        self.is_eof && self.frame_buffer.len() == 0
    }
}

/// Collects the settings of a pipeline, starting from the defaults.
pub struct PipelineBuilder {
    config: PipelineConfig,
}

impl View for PipelineBuilder {
    type V = PipelineConfig;

    closed spec fn view(&self) -> PipelineConfig {
        self.config
    }
}

impl PipelineBuilder {
    pub fn new() -> (builder: Self)
        ensures
            builder@.buffer_size == 10,
            builder@.enable_threading,
            builder@.max_decode_threads == 4,
    {
        Self { config: PipelineConfig::default() }
    }

    pub fn buffer_size(self, size: usize) -> (builder: Self)
        ensures
            builder@ == (PipelineConfig { buffer_size: size, ..self@ }),
    {
        let mut builder = self;
        builder.config.buffer_size = size;
        builder
    }

    pub fn enable_threading(self, enable: bool) -> (builder: Self)
        ensures
            builder@ == (PipelineConfig { enable_threading: enable, ..self@ }),
    {
        let mut builder = self;
        builder.config.enable_threading = enable;
        builder
    }

    pub fn max_decode_threads(self, threads: usize) -> (builder: Self)
        ensures
            builder@ == (PipelineConfig { max_decode_threads: threads, ..self@ }),
    {
        let mut builder = self;
        builder.config.max_decode_threads = threads;
        builder
    }

    pub fn build(self) -> (pipeline: Pipeline)
        ensures
            pipeline@ == PipelineState::fresh(self@.buffer_size as nat),
            pipeline.spec_config() == self@,
            pipeline.spec_media() is None,
            pipeline.spec_decoder() is None,
    {
        Pipeline::new(self.config)
    }
}

impl Default for PipelineBuilder {
    fn default() -> (builder: Self)
        ensures
            builder@.buffer_size == 10,
            builder@.enable_threading,
            builder@.max_decode_threads == 4,
    {
        Self::new()
    }
}

/// The buffer never grows past its capacity: from a state within capacity,
/// every operation leads to a state within capacity, but for one: the end of
/// the stream when the decoder's flush gives more frames than there is room
/// for, all of which are kept.
pub proof fn lemma_step_within_capacity(state: PipelineState, op: PipelineStep)
    requires
        state.within_capacity(),
        !(op matches PipelineStep::Feed(event) && state.flush_overflows(event)),
    ensures
        state.step(op).within_capacity(),
{
}

/// A pipeline of any capacity starts within it and stays within it through
/// any run of operations in which no flush overflows the buffer.
pub proof fn lemma_buffer_never_exceeds_capacity(capacity: nat, ops: Seq<PipelineStep>)
    requires
        PipelineState::fresh(capacity).no_flush_overflows(ops),
    ensures
        PipelineState::fresh(capacity).run(ops).within_capacity(),
{
    lemma_run_within_capacity(PipelineState::fresh(capacity), ops);
}

/// From a state within capacity, a run of operations in which no flush
/// overflows the buffer ends within capacity.
pub proof fn lemma_run_within_capacity(state: PipelineState, ops: Seq<PipelineStep>)
    requires
        state.within_capacity(),
        state.no_flush_overflows(ops),
    ensures
        state.run(ops).within_capacity(),
    decreases ops.len(),
{
    if ops.len() > 0 {
        lemma_step_within_capacity(state, ops[0]);
        lemma_run_within_capacity(state.step(ops[0]), ops.drop_first());
    }
}

/// Once the stream has ended and the buffer is drained, a poll reports
/// `Finished` and leaves the pipeline ended and drained. So does every
/// operation that neither starts the pipeline nor binds a medium.
pub proof fn lemma_finished_poll(state: PipelineState, op: PipelineStep)
    requires
        state.finished(),
    ensures
        state.poll_kind() is Finished,
        !(op is Start) && !(op is SetMedia) ==> state.step(op).finished(),
{
}

/// Once the stream has ended and the buffer is drained, the pipeline reports
/// `Finished` after any run of operations that neither starts it nor binds a
/// medium: until it is restarted.
pub proof fn lemma_finished_until_restart(state: PipelineState, ops: Seq<PipelineStep>)
    requires
        state.finished(),
        PipelineState::no_restart(ops),
    ensures
        state.run(ops).finished(),
        state.run(ops).poll_kind() is Finished,
    decreases ops.len(),
{
    if ops.len() > 0 {
        assert(!(ops[0] is Start) && !(ops[0] is SetMedia));
        lemma_finished_poll(state, ops[0]);
        let rest = ops.drop_first();
        assert forall|i: int| 0 <= i < rest.len() implies !(#[trigger] rest[i] is Start) && !(
        rest[i] is SetMedia) by {
            assert(rest[i] == ops[i + 1]);
        }
        lemma_finished_until_restart(state.step(ops[0]), rest);
    } else {
        lemma_finished_poll(state, PipelineStep::Poll);
    }
}

/// While a top-up is under way and `frames` fit into the room that is left,
/// one frame event for each of them appends them all.
pub proof fn lemma_fed_frames(state: PipelineState, frames: Seq<VideoFrame>)
    requires
        state.filling,
        !state.eof,
        state.buffer.len() + frames.len() <= state.capacity,
    ensures
        state.fed_frames(frames) == (PipelineState { buffer: state.buffer + frames, ..state }),
    decreases frames.len(),
{
    if frames.len() > 0 {
        let next = state.fed(DecodeEvent::Frame(frames[0]));
        lemma_fed_frames(next, frames.drop_first());
        assert(next.buffer + frames.drop_first() == state.buffer + frames);
    } else {
        assert(state.buffer + frames == state.buffer);
    }
}

/// A restart for a loop (stop, bind the reopened medium, start) resets the
/// end-of-stream mark and empties the buffer, whatever the pipeline held
/// before. With a video stream bound, the next poll asks for a packet (if the
/// capacity is not zero), and as many frames as the capacity then fill the
/// buffer to exactly its capacity.
pub proof fn lemma_restart_refills(
    state: PipelineState,
    video_stream: usize,
    frames: Seq<VideoFrame>,
)
    requires
        frames.len() == state.capacity,
    ensures
        ({
            let restarted = state.stopped().media_set(true, Some(video_stream)).started();
            &&& !restarted.eof
            &&& restarted.buffer.len() == 0
            &&& restarted.capacity == state.capacity
            &&& state.capacity > 0 ==> restarted.poll_kind() is NeedPacket
            &&& state.capacity > 0 ==> restarted.polled().fed_frames(frames).buffer == frames
            &&& state.capacity > 0 ==> restarted.polled().fed_frames(frames).buffer.len()
                == state.capacity
        }),
{
    let restarted = state.stopped().media_set(true, Some(video_stream)).started();
    if state.capacity > 0 {
        lemma_fed_frames(restarted.polled(), frames);
        assert(restarted.polled().buffer + frames == frames);
    }
}

} // verus!
