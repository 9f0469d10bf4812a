//! The audio bridge: the decisions of the thread that reads the decode
//! process, the pull side that feeds the audio sink, and the volume state.
//!
//! The decode process, its pipe, the thread and the audio sink belong to the
//! program around this library. It reports what each read and each send
//! gave, and does what `DecodeLoop` answers.

use crate::downloader::url_parts::views_of;
use crate::media_core::errors::MediaError;
use crate::media_core::media::MediaInfo;
use crate::text::{decimal, decimal_of};
use crate::terminal_player::flag::FinishedFlag;
use crate::terminal_player::samples::{samples_from_bytes, samples_of, SILENCE};
use crossbeam_channel::{Receiver, RecvTimeoutError};
use std::time::Duration;
use vstd::prelude::*;
use vstd::string::*;

verus! {

/// The samples asked of the decode process in one block.
pub const BLOCK_SAMPLES: usize = 4096;

/// With more chunks than this waiting in the channel, the decode thread
/// holds back.
pub const MAX_PENDING_CHUNKS: usize = 15;

/// After this many empty reads in a row the stream is taken as ended.
pub const MAX_CONSECUTIVE_ZERO_READS: u32 = 100;

/// How long the decode thread waits while the channel is full, in
/// milliseconds.
pub const BACKPRESSURE_SLEEP_MS: u64 = 5;

/// How long it waits after an empty read.
pub const EMPTY_READ_SLEEP_MS: u64 = 10;

/// How long it waits after a failed read.
pub const READ_ERROR_SLEEP_MS: u64 = 50;

/// How long it waits when the pipe would block.
pub const WOULD_BLOCK_SLEEP_MS: u64 = 1;

/// How long the pull side waits for a chunk before it decides between
/// silence and the end of the stream.
pub const PULL_TIMEOUT_MS: u64 = 500;

/// The sample rate assumed where the medium states none.
pub const DEFAULT_SAMPLE_RATE: u32 = 44100;

/// The channel count assumed where the medium states none.
pub const DEFAULT_CHANNELS: u16 = 2;

/// What one read from the pipe of the decode process gave.
#[derive(Debug)]
pub enum ReadOutcome {
    /// This many bytes were read.
    Bytes(usize),
    /// The pipe would block: nothing is there yet.
    WouldBlock,
    /// The read failed; the text is that of the error.
    Failed(String),
}

/// What to do next while a block is read.
#[derive(Debug)]
pub enum BlockStep {
    /// Read again, into the part of the block that is still empty.
    ReadMore,
    /// Wait this many milliseconds, then read again.
    RetryAfter(u64),
    /// The block is done and holds this many bytes.
    Done(usize),
    /// The block is given up.
    Failed(MediaError),
}

/// The filling of one block of raw bytes, which may take several reads.
pub struct BlockRead {
    wanted: usize,
    filled: usize,
}

impl BlockRead {
    /// The size of the block, in bytes.
    pub closed spec fn wanted(&self) -> nat {
        self.wanted as nat
    }

    /// The bytes read so far.
    pub closed spec fn filled(&self) -> nat {
        self.filled as nat
    }

    #[verifier::type_invariant]
    spec fn inv(&self) -> bool {
        self.filled <= self.wanted
    }

    /// What `on_read` changes and answers, as a function of the block and
    /// the outcome.
    pub open spec fn filled_after(&self, outcome: ReadOutcome) -> nat {
        match outcome {
            ReadOutcome::Bytes(n) => if self.filled() + n <= self.wanted() {
                (self.filled() + n) as nat
            } else {
                self.wanted()
            },
            _ => self.filled(),
        }
    }

    /// A block of `samples` samples, four bytes each; as many as fit in a
    /// `usize`.
    pub fn new(samples: usize) -> (block: Self)
        ensures
            block.filled() == 0,
            block.wanted() == if samples * 4 <= usize::MAX {
                samples * 4
            } else {
                usize::MAX as int
            },
    {
        let wanted: usize = match samples.checked_mul(4) {
            Some(bytes) => bytes,
            None => usize::MAX,
        };
        BlockRead { wanted, filled: 0 }
    }

    /// The bytes that are still to be read.
    pub fn remaining(&self) -> (bytes: usize)
        ensures
            bytes == self.wanted() - self.filled(),
    {
        proof {
            use_type_invariant(self);
        }
        self.wanted - self.filled
    }

    /// The bytes read so far.
    pub fn bytes_filled(&self) -> (bytes: usize)
        ensures
            bytes == self.filled(),
            bytes <= self.wanted(),
    {
        proof {
            use_type_invariant(self);
        }
        self.filled
    }

    /// Takes in the outcome of one read. Bytes are added to the block; the
    /// block is done when it is full or when a read gave no byte (the end of
    /// the stream). A pipe that would block is tried again after a short
    /// wait; any other failure gives the block up.
    pub fn on_read(&mut self, outcome: ReadOutcome) -> (step: BlockStep)
        ensures
            final(self).wanted() == old(self).wanted(),
            final(self).filled() == old(self).filled_after(outcome),
            match outcome {
                ReadOutcome::Bytes(n) => if n == 0 || final(self).filled() == final(
                    self
                ).wanted() {
                    step == BlockStep::Done(final(self).filled() as usize)
                } else {
                    step == BlockStep::ReadMore
                },
                ReadOutcome::WouldBlock => step == BlockStep::RetryAfter(WOULD_BLOCK_SLEEP_MS),
                ReadOutcome::Failed(text) => step matches BlockStep::Failed(MediaError::Io(m))
                    && m@ == "FFmpeg read error: "@ + text@,
            },
    {
        proof {
            use_type_invariant(&*self);
        }
        match outcome {
            ReadOutcome::Bytes(n) => {
                if n == 0 {
                    return BlockStep::Done(self.filled);
                }
                if n <= self.wanted - self.filled {
                    self.filled = self.filled + n;
                } else {
                    self.filled = self.wanted;
                }
                if self.filled < self.wanted {
                    BlockStep::ReadMore
                } else {
                    BlockStep::Done(self.filled)
                }
            },
            ReadOutcome::WouldBlock => BlockStep::RetryAfter(WOULD_BLOCK_SLEEP_MS),
            ReadOutcome::Failed(text) => BlockStep::Failed(
                MediaError::Io(String::from_str("FFmpeg read error: ").concat(text.as_str())),
            ),
        }
    }
}

/// What reading one block gave the decode loop.
#[derive(Debug)]
pub enum BlockOutcome {
    /// The bytes that were read; none at the end of the stream.
    Bytes(Vec<u8>),
    /// The read failed.
    Failed(MediaError),
}

/// What the decode thread does next.
#[derive(Debug)]
pub enum LoopAction {
    /// Read one block from the decode process.
    ReadBlock,
    /// Wait this many milliseconds, then start the next round.
    Sleep(u64),
    /// Send this chunk of samples to the pull side.
    Send(Vec<u32>),
    /// Ask whether the decode process has exited.
    CheckProcess,
    /// Leave the loop: the bridge has finished.
    Finish,
}

/// The counters of the decode loop as contracts see them.
pub struct DecodeLoopState {
    pub finished: bool,
    pub total_samples_sent: nat,
    pub read_count: nat,
    pub consecutive_zero_reads: nat,
}

/// The decisions of the decode thread.
///
/// One round: `begin_round` with the stop flag and the number of chunks that
/// wait in the channel; if it answers `ReadBlock`, `on_block` with what the
/// read gave; if that answers `Send`, `on_sent` with whether the chunk was
/// taken; if it answers `CheckProcess`, `on_process_checked`. Once the loop
/// has finished it stays finished and answers `Finish` to everything.
pub struct DecodeLoop {
    finished: bool,
    total_samples_sent: u64,
    read_count: u64,
    consecutive_zero_reads: u32,
}

/// `a + b`, held at the largest `u64`.
pub open spec fn capped_sum(a: nat, b: nat) -> nat {
    if a + b <= u64::MAX {
        (a + b) as nat
    } else {
        u64::MAX as nat
    }
}

impl View for DecodeLoop {
    type V = DecodeLoopState;

    closed spec fn view(&self) -> DecodeLoopState {
        DecodeLoopState {
            finished: self.finished,
            total_samples_sent: self.total_samples_sent as nat,
            read_count: self.read_count as nat,
            consecutive_zero_reads: self.consecutive_zero_reads as nat,
        }
    }
}

impl DecodeLoopState {
    pub open spec fn fresh() -> Self {
        DecodeLoopState {
            finished: false,
            total_samples_sent: 0,
            read_count: 0,
            consecutive_zero_reads: 0,
        }
    }

    pub open spec fn ended(self) -> Self {
        DecodeLoopState { finished: true, ..self }
    }

    /// The state after the start of a round.
    pub open spec fn round_begun(self, stop_requested: bool) -> Self {
        if stop_requested {
            self.ended()
        } else {
            self
        }
    }

    /// The state after a block was read.
    pub open spec fn block_taken(self, outcome: BlockOutcome) -> Self {
        if self.finished {
            self
        } else {
            match outcome {
                BlockOutcome::Bytes(bytes) => if bytes@.len() / 4 == 0 {
                    DecodeLoopState {
                        consecutive_zero_reads: (self.consecutive_zero_reads + 1) as nat,
                        finished: self.consecutive_zero_reads + 1 >= MAX_CONSECUTIVE_ZERO_READS,
                        ..self
                    }
                } else {
                    DecodeLoopState {
                        consecutive_zero_reads: 0,
                        read_count: capped_sum(self.read_count, 1),
                        ..self
                    }
                },
                BlockOutcome::Failed(_) => self,
            }
        }
    }

    /// The state after a chunk of `samples` samples was offered to the
    /// channel.
    pub open spec fn chunk_sent(self, delivered: bool, samples: nat) -> Self {
        if self.finished {
            self
        } else if delivered {
            DecodeLoopState {
                total_samples_sent: capped_sum(self.total_samples_sent, samples),
                ..self
            }
        } else {
            self.ended()
        }
    }

    /// The state after the decode process was looked at.
    pub open spec fn process_checked(self, exited: bool) -> Self {
        if exited {
            self.ended()
        } else {
            self
        }
    }
}

impl DecodeLoop {
    #[verifier::type_invariant]
    spec fn inv(&self) -> bool {
        &&& self.consecutive_zero_reads <= MAX_CONSECUTIVE_ZERO_READS
        &&& self.consecutive_zero_reads == MAX_CONSECUTIVE_ZERO_READS ==> self.finished
    }

    pub fn new() -> (decode_loop: Self)
        ensures
            decode_loop@ == DecodeLoopState::fresh(),
    {
        DecodeLoop { finished: false, total_samples_sent: 0, read_count: 0, consecutive_zero_reads: 0 }
    }

    /// The decode process could not be started: the bridge has finished
    /// before it began.
    pub fn on_spawn_failed(&mut self)
        ensures
            final(self)@ == old(self)@.ended(),
    {
        proof {
            use_type_invariant(&*self);
        }
        self.finished = true;
    }

    /// Starts a round. A stop request ends the loop. With more than
    /// `MAX_PENDING_CHUNKS` chunks waiting, the thread sleeps and reads
    /// nothing, so that a paused consumer does not make the channel grow.
    /// Otherwise a block is read.
    pub fn begin_round(&mut self, stop_requested: bool, pending_chunks: usize) -> (action:
        LoopAction)
        ensures
            final(self)@ == old(self)@.round_begun(stop_requested),
            action == if old(self)@.finished || stop_requested {
                LoopAction::Finish
            } else if pending_chunks > MAX_PENDING_CHUNKS {
                LoopAction::Sleep(BACKPRESSURE_SLEEP_MS)
            } else {
                LoopAction::ReadBlock
            },
    {
        proof {
            use_type_invariant(&*self);
        }
        if self.finished {
            return LoopAction::Finish;
        }
        if stop_requested {
            self.finished = true;
            return LoopAction::Finish;
        }
        if pending_chunks > MAX_PENDING_CHUNKS {
            LoopAction::Sleep(BACKPRESSURE_SLEEP_MS)
        } else {
            LoopAction::ReadBlock
        }
    }

    /// Takes in what reading a block gave. Bytes that make at least one
    /// sample are turned into a chunk to send. A read without a sample is a
    /// stall: the thread waits and tries again, and after
    /// `MAX_CONSECUTIVE_ZERO_READS` of them in a row the stream has ended. A
    /// failed read asks for a look at the decode process.
    pub fn on_block(&mut self, outcome: BlockOutcome) -> (action: LoopAction)
        ensures
            final(self)@ == old(self)@.block_taken(outcome),
            old(self)@.finished ==> action == LoopAction::Finish,
            !old(self)@.finished ==> match outcome {
                BlockOutcome::Bytes(bytes) => if bytes@.len() / 4 == 0 {
                    action == if final(self)@.finished {
                        LoopAction::Finish
                    } else {
                        LoopAction::Sleep(EMPTY_READ_SLEEP_MS)
                    }
                } else {
                    action matches LoopAction::Send(chunk) && chunk@ == samples_of(bytes@)
                },
                BlockOutcome::Failed(_) => action == LoopAction::CheckProcess,
            },
    {
        proof {
            use_type_invariant(&*self);
        }
        if self.finished {
            return LoopAction::Finish;
        }
        match outcome {
            BlockOutcome::Bytes(bytes) => {
                let chunk = samples_from_bytes(bytes.as_slice());
                if chunk.len() == 0 {
                    let zero_reads: u32 = self.consecutive_zero_reads + 1;
                    if zero_reads >= MAX_CONSECUTIVE_ZERO_READS {
                        self.finished = true;
                        self.consecutive_zero_reads = zero_reads;
                        LoopAction::Finish
                    } else {
                        self.consecutive_zero_reads = zero_reads;
                        LoopAction::Sleep(EMPTY_READ_SLEEP_MS)
                    }
                } else {
                    self.consecutive_zero_reads = 0;
                    self.read_count = self.read_count.saturating_add(1);
                    LoopAction::Send(chunk)
                }
            },
            BlockOutcome::Failed(_) => LoopAction::CheckProcess,
        }
    }

    /// Takes in whether the channel took a chunk of `samples` samples. A
    /// chunk that was taken is counted and the next round begins at once; a
    /// channel whose receiver is gone ends the loop.
    pub fn on_sent(&mut self, delivered: bool, samples: usize) -> (action: LoopAction)
        ensures
            final(self)@ == old(self)@.chunk_sent(delivered, samples as nat),
            action == if old(self)@.finished || !delivered {
                LoopAction::Finish
            } else {
                LoopAction::Sleep(0)
            },
    {
        proof {
            use_type_invariant(&*self);
        }
        if self.finished {
            return LoopAction::Finish;
        }
        if delivered {
            self.total_samples_sent = self.total_samples_sent.saturating_add(samples as u64);
            LoopAction::Sleep(0)
        } else {
            self.finished = true;
            LoopAction::Finish
        }
    }

    /// Takes in whether the decode process has exited, after a failed read.
    /// If it has, the loop ends; if not, the thread waits and goes on.
    pub fn on_process_checked(&mut self, exited: bool) -> (action: LoopAction)
        ensures
            final(self)@ == old(self)@.process_checked(exited),
            action == if old(self)@.finished || exited {
                LoopAction::Finish
            } else {
                LoopAction::Sleep(READ_ERROR_SLEEP_MS)
            },
    {
        proof {
            use_type_invariant(&*self);
        }
        if self.finished {
            return LoopAction::Finish;
        }
        if exited {
            self.finished = true;
            LoopAction::Finish
        } else {
            LoopAction::Sleep(READ_ERROR_SLEEP_MS)
        }
    }

    pub fn is_finished(&self) -> (finished: bool)
        ensures
            finished == self@.finished,
    {
        self.finished
    }

    /// The samples that the channel has taken so far.
    pub fn total_samples_sent(&self) -> (total: u64)
        ensures
            total == self@.total_samples_sent,
    {
        self.total_samples_sent
    }

    /// The blocks that held at least one sample.
    pub fn read_count(&self) -> (count: u64)
        ensures
            count == self@.read_count,
    {
        self.read_count
    }

    /// The empty reads since the last block with a sample.
    pub fn consecutive_zero_reads(&self) -> (count: u32)
        ensures
            count == self@.consecutive_zero_reads,
    {
        self.consecutive_zero_reads
    }
}

/// The bridge finishes once and stays finished: no report changes a finished
/// loop.
pub proof fn lemma_finished_is_final(
    state: DecodeLoopState,
    stop_requested: bool,
    outcome: BlockOutcome,
    delivered: bool,
    samples: nat,
    exited: bool,
)
    requires
        state.finished,
    ensures
        state.round_begun(stop_requested) == state,
        state.block_taken(outcome) == state,
        state.chunk_sent(delivered, samples) == state,
        state.process_checked(exited) == state,
{
}

/// The count of samples sent never goes down.
pub proof fn lemma_total_sent_is_monotonic(state: DecodeLoopState, delivered: bool, samples: nat)
    requires
        state.total_samples_sent <= u64::MAX,
    ensures
        state.chunk_sent(delivered, samples).total_samples_sent >= state.total_samples_sent,
{
}

/// The arguments with which the decode process is started: decode the file,
/// leave the video out, and write raw interleaved little-endian 32-bit float
/// samples at the given rate and channel count to standard output, logging
/// errors only.
pub open spec fn decode_arguments(file_path: Seq<char>, sample_rate: u32, channels: u16) -> Seq<
    Seq<char>,
> {
    seq![
        "-i"@,
        file_path,
        "-vn"@,
        "-f"@,
        "f32le"@,
        "-acodec"@,
        "pcm_f32le"@,
        "-ar"@,
        decimal_of(sample_rate as u64),
        "-ac"@,
        decimal_of(channels as u64),
        "-loglevel"@,
        "error"@,
        "-"@,
    ]
}

/// The arguments with which the decode process is started.
pub fn decode_command_args(file_path: &str, sample_rate: u32, channels: u16) -> (args: Vec<String>)
    ensures
        views_of(args@) == decode_arguments(file_path@, sample_rate, channels),
{
    let mut args: Vec<String> = Vec::with_capacity(14);
    args.push(String::from_str("-i"));
    args.push(String::from_str(file_path));
    args.push(String::from_str("-vn"));
    args.push(String::from_str("-f"));
    args.push(String::from_str("f32le"));
    args.push(String::from_str("-acodec"));
    args.push(String::from_str("pcm_f32le"));
    args.push(String::from_str("-ar"));
    args.push(decimal(sample_rate as u64));
    args.push(String::from_str("-ac"));
    args.push(decimal(channels as u64));
    args.push(String::from_str("-loglevel"));
    args.push(String::from_str("error"));
    args.push(String::from_str("-"));
    assert(views_of(args@) =~= decode_arguments(file_path@, sample_rate, channels));
    args
}

/// What the wait for the next chunk gave the pull side.
#[derive(Debug)]
pub enum PullEvent {
    /// A chunk arrived in time.
    Chunk(Vec<u32>),
    /// No chunk arrived in time. `finished` says whether the bridge had
    /// finished by then; if it had, `last_chunk` is what a receive without
    /// waiting still found. It is looked at only then.
    TimedOut { finished: bool, last_chunk: Option<Vec<u32>> },
    /// The sending side is gone and the channel is empty.
    Disconnected,
}

/// What a blocking receive with a timeout gave.
pub enum ChunkWait {
    Chunk(Vec<u32>),
    TimedOut,
    Disconnected,
}

/// `Receiver` of crossbeam-channel: the receiving end of a channel. What it
/// holds changes as other threads send, so nothing is known of it.
#[verifier::external_type_specification]
#[verifier::external_body]
#[verifier::reject_recursive_types(T)]
pub struct ExReceiver<T>(Receiver<T>);

/// `Receiver::recv_timeout` of crossbeam-channel: waits up to `timeout_ms`
/// milliseconds for a message. What comes back depends on the sending
/// thread, so nothing is claimed of it. The bound on the timeout keeps the
/// deadline within what the clock can hold; past it the call would wait
/// without a deadline.
#[verifier::external_body]
fn recv_chunk(receiver: &Receiver<Vec<u32>>, timeout_ms: u64) -> (wait: ChunkWait)
    requires
        timeout_ms <= 3_600_000,
{
    match receiver.recv_timeout(Duration::from_millis(timeout_ms)) {
        Ok(chunk) => ChunkWait::Chunk(chunk),
        Err(RecvTimeoutError::Timeout) => ChunkWait::TimedOut,
        Err(RecvTimeoutError::Disconnected) => ChunkWait::Disconnected,
    }
}

/// `Receiver::try_recv` of crossbeam-channel: takes a message if one is
/// there, without waiting. Nothing is claimed of what comes back.
#[verifier::external_body]
fn try_recv_chunk(receiver: &Receiver<Vec<u32>>) -> (chunk: Option<Vec<u32>>) {
    receiver.try_recv().ok()
}

/// The pull side as contracts see it.
pub struct AudioSourceState {
    /// The chunk that is being played.
    pub current: Seq<u32>,
    /// How many of its samples were handed out.
    pub position: nat,
    /// The waits in a row that ended in silence.
    pub underruns: nat,
    /// The samples handed out since the source was made.
    pub total_played: nat,
    pub sample_rate: u32,
    pub channels: u16,
}

/// `a + b`, held at the largest `usize`.
pub open spec fn capped_count(a: nat, b: nat) -> nat {
    if a + b <= usize::MAX {
        (a + b) as nat
    } else {
        usize::MAX as nat
    }
}

impl AudioSourceState {
    /// The current chunk has no sample left.
    pub open spec fn exhausted(self) -> bool {
        self.position >= self.current.len()
    }

    /// The state after a sample was asked of the current chunk.
    pub open spec fn emitted(self) -> Self {
        if self.exhausted() {
            self
        } else {
            AudioSourceState {
                position: self.position + 1,
                total_played: capped_sum(self.total_played, 1),
                ..self
            }
        }
    }

    /// The sample that the current chunk gives: its next one, or silence if
    /// it has none left.
    pub open spec fn emitted_sample(self) -> u32 {
        if self.exhausted() {
            SILENCE
        } else {
            self.current[self.position as int]
        }
    }

    /// The state with `chunk` as the current chunk, none of it played.
    pub open spec fn loaded(self, chunk: Seq<u32>) -> Self {
        AudioSourceState { current: chunk, position: 0, ..self }
    }

    /// The state after the wait for a chunk ended in `event`.
    pub open spec fn refilled(self, event: PullEvent) -> Self {
        match event {
            PullEvent::Chunk(chunk) => AudioSourceState {
                underruns: 0,
                ..self.loaded(chunk@)
            }.emitted(),
            PullEvent::TimedOut { finished, last_chunk } => if finished {
                match last_chunk {
                    Some(chunk) => self.loaded(chunk@).emitted(),
                    None => self,
                }
            } else {
                AudioSourceState { underruns: capped_count(self.underruns, 1), ..self }
            },
            PullEvent::Disconnected => self,
        }
    }

    /// What the pull hands out after the wait for a chunk ended in `event`.
    pub open spec fn refill_sample(self, event: PullEvent) -> Option<u32> {
        match event {
            PullEvent::Chunk(chunk) => Some(self.loaded(chunk@).emitted_sample()),
            PullEvent::TimedOut { finished, last_chunk } => if finished {
                match last_chunk {
                    Some(chunk) => Some(self.loaded(chunk@).emitted_sample()),
                    None => None,
                }
            } else {
                Some(SILENCE)
            },
            PullEvent::Disconnected => None,
        }
    }
}

/// A continuous source of samples for the audio sink, fed through a channel
/// by the decode thread. The sink pulls one sample at a time.
pub struct DirectAudioSource {
    receiver: Receiver<Vec<u32>>,
    sample_rate: u32,
    channels: u16,
    current_data: Vec<u32>,
    position: usize,
    buffer_underrun_count: usize,
    is_finished: FinishedFlag,
    total_samples_played: u64,
}

impl View for DirectAudioSource {
    type V = AudioSourceState;

    closed spec fn view(&self) -> AudioSourceState {
        AudioSourceState {
            current: self.current_data@,
            position: self.position as nat,
            underruns: self.buffer_underrun_count as nat,
            total_played: self.total_samples_played as nat,
            sample_rate: self.sample_rate,
            channels: self.channels,
        }
    }
}

impl DirectAudioSource {
    pub fn new(
        receiver: Receiver<Vec<u32>>,
        sample_rate: u32,
        channels: u16,
        is_finished: FinishedFlag,
    ) -> (source: Self)
        ensures
            source@ == (AudioSourceState {
                current: Seq::empty(),
                position: 0,
                underruns: 0,
                total_played: 0,
                sample_rate,
                channels,
            }),
    {
        Self {
            receiver,
            sample_rate,
            channels,
            current_data: Vec::new(),
            position: 0,
            buffer_underrun_count: 0,
            is_finished,
            total_samples_played: 0,
        }
    }

    /// The number of samples for which rate and channel count stay as they
    /// are.
    pub fn current_frame_len(&self) -> (len: Option<usize>)
        ensures
            len == Some(8192usize),
    {
        Some(8192)
    }

    pub fn channels(&self) -> (channels: u16)
        ensures
            channels == self@.channels,
    {
        self.channels
    }

    pub fn sample_rate(&self) -> (rate: u32)
        ensures
            rate == self@.sample_rate,
    {
        self.sample_rate
    }

    /// The length of the whole stream is not known beforehand.
    pub fn total_duration(&self) -> (duration: Option<Duration>)
        ensures
            duration is None,
    {
        None
    }

    /// Whether the current chunk has no sample left, so that the next pull
    /// has to wait for a chunk.
    pub fn needs_chunk(&self) -> (needed: bool)
        ensures
            needed == self@.exhausted(),
    {
        self.position >= self.current_data.len()
    }

    /// Hands out the next sample of the current chunk, or silence if it has
    /// none left.
    pub fn emit(&mut self) -> (sample: u32)
        ensures
            final(self)@ == old(self)@.emitted(),
            sample == old(self)@.emitted_sample(),
    {
        if self.position < self.current_data.len() {
            let sample = self.current_data[self.position];
            self.position = self.position + 1;
            self.total_samples_played = self.total_samples_played.saturating_add(1);
            sample
        } else {
            SILENCE
        }
    }

    /// Goes on after the wait for a chunk ended in `event`. A chunk becomes
    /// the current chunk and gives its first sample. A timeout while the
    /// bridge still runs is an underrun and gives silence, so that the sink
    /// is never held up; a timeout after the bridge has finished gives the
    /// first sample of the chunk that was still found, or ends the stream.
    /// A channel without a sender ends the stream.
    ///
    /// What was left of the chunk before is dropped: call this when
    /// `needs_chunk` holds.
    pub fn refill(&mut self, event: PullEvent) -> (sample: Option<u32>)
        ensures
            final(self)@ == old(self)@.refilled(event),
            sample == old(self)@.refill_sample(event),
    {
        match event {
            PullEvent::Chunk(chunk) => {
                self.current_data = chunk;
                self.position = 0;
                self.buffer_underrun_count = 0;
                Some(self.emit())
            },
            PullEvent::TimedOut { finished, last_chunk } => {
                if finished {
                    match last_chunk {
                        Some(chunk) => {
                            self.current_data = chunk;
                            self.position = 0;
                            Some(self.emit())
                        },
                        None => None,
                    }
                } else {
                    self.buffer_underrun_count = self.buffer_underrun_count.saturating_add(1);
                    Some(SILENCE)
                }
            },
            PullEvent::Disconnected => None,
        }
    }

    /// The next sample for the sink; `None` ends the stream.
    ///
    /// While the current chunk has samples, the next of them. Otherwise the
    /// source waits up to `PULL_TIMEOUT_MS` for a chunk and goes on as
    /// `refill` says for what the wait gave. What that is depends on the
    /// decode thread.
    pub fn next(&mut self) -> (sample: Option<u32>)
        ensures
            !old(self)@.exhausted() ==> final(self)@ == old(self)@.emitted() && sample == Some(
                old(self)@.emitted_sample(),
            ),
            old(self)@.exhausted() ==> exists|event: PullEvent|
                final(self)@ == #[trigger] old(self)@.refilled(event) && sample == old(
                    self,
                )@.refill_sample(event),
    {
        if self.position < self.current_data.len() {
            return Some(self.emit());
        }
        let event = match recv_chunk(&self.receiver, PULL_TIMEOUT_MS) {
            ChunkWait::Chunk(chunk) => PullEvent::Chunk(chunk),
            ChunkWait::TimedOut => {
                if self.is_finished.is_set() {
                    PullEvent::TimedOut {
                        finished: true,
                        last_chunk: try_recv_chunk(&self.receiver),
                    }
                } else {
                    PullEvent::TimedOut { finished: false, last_chunk: None }
                }
            },
            ChunkWait::Disconnected => PullEvent::Disconnected,
        };
        let ghost before = self@;
        let sample = self.refill(event);
        assert(self@ == before.refilled(event) && sample == before.refill_sample(event));
        sample
    }
}

/// An underrun never holds the sink up: when the wait for a chunk times out
/// and the bridge has not finished, the pull hands out one sample of
/// silence, and the chunk being played and the place in it stay as they
/// are.
pub proof fn lemma_underrun_gives_silence(state: AudioSourceState, last_chunk: Option<Vec<u32>>)
    ensures
        ({
            let event = PullEvent::TimedOut { finished: false, last_chunk };
            &&& state.refill_sample(event) == Some(SILENCE)
            &&& state.refilled(event).current == state.current
            &&& state.refilled(event).position == state.position
            &&& state.refilled(event).total_played == state.total_played
        }),
{
}

/// Whatever the wait gave, every chunk is played in order and in full: the
/// sample handed out after a chunk arrived is its first, and each pull after
/// it hands out the next.
pub proof fn lemma_chunk_is_played_in_order(state: AudioSourceState, chunk: Vec<u32>, k: nat)
    requires
        k < chunk@.len(),
    ensures
        state.loaded(chunk@).emitted_sample() == chunk@[0],
        (AudioSourceState { position: k, ..state.loaded(chunk@) }).emitted_sample() == chunk@[k as int],
        (AudioSourceState { position: k, ..state.loaded(chunk@) }).emitted().position == k + 1,
{
}

/// The bit pattern of the volume `1.0`.
pub const FULL_VOLUME: u32 = 0x3F80_0000;

/// The bit pattern of the volume `0.0`.
pub const NO_VOLUME: u32 = 0;

/// The bit pattern of `-0.0`.
pub const NEGATIVE_ZERO: u32 = 0x8000_0000;

/// The float with this bit pattern is a NaN: its exponent bits are all ones
/// and its other bits below the sign are not all zero.
pub open spec fn is_nan_bits(bits: u32) -> bool {
    (0x7F80_0000 < bits && bits < 0x8000_0000) || 0xFF80_0000 < bits
}

/// The float with this bit pattern lies between `0.0` and `1.0`, both
/// included. Floats that are not negative are ordered as their bit
/// patterns are; `-0.0` equals `0.0`.
pub open spec fn is_unit_volume(bits: u32) -> bool {
    bits <= FULL_VOLUME || bits == NEGATIVE_ZERO
}

/// A volume held to the range from `0.0` to `1.0`, on bit patterns: a float
/// above `1.0` becomes `1.0`, one below `0.0` becomes `0.0`, and every other
/// one, a NaN too, stays as it is.
pub open spec fn clamp_unit(bits: u32) -> u32 {
    if is_nan_bits(bits) || is_unit_volume(bits) {
        bits
    } else if bits < NEGATIVE_ZERO {
        FULL_VOLUME
    } else {
        NO_VOLUME
    }
}

/// Holds a volume to the range from `0.0` to `1.0`.
pub fn clamp_volume(bits: u32) -> (clamped: u32)
    ensures
        clamped == clamp_unit(bits),
{
    if bits <= FULL_VOLUME || bits == NEGATIVE_ZERO {
        bits
    } else if bits <= 0x7F80_0000 {
        FULL_VOLUME
    } else if bits < NEGATIVE_ZERO {
        bits
    } else if bits <= 0xFF80_0000 {
        NO_VOLUME
    } else {
        bits
    }
}

/// What the audio sink is to do.
#[derive(Debug, Clone, Copy, PartialEq, Eq, Structural)]
pub enum SinkCommand {
    Play,
    Pause,
    Stop,
    /// Set the volume to the float with this bit pattern.
    SetVolume(u32),
}

/// The transport state of the audio side as contracts see it.
pub struct AudioPlayerState {
    pub muted: bool,
    /// The volume that was set, kept while muted.
    pub original_volume: u32,
    pub stop_requested: bool,
    pub sample_rate: u32,
    pub channels: u16,
}

impl AudioPlayerState {
    /// The volume that is reported: none while muted.
    pub open spec fn volume(self) -> u32 {
        if self.muted {
            NO_VOLUME
        } else {
            self.original_volume
        }
    }

    pub open spec fn volume_set(self, volume: u32) -> Self {
        AudioPlayerState { original_volume: clamp_unit(volume), ..self }
    }

    pub open spec fn muted(self) -> Self {
        AudioPlayerState { muted: true, ..self }
    }

    pub open spec fn unmuted(self) -> Self {
        AudioPlayerState { muted: false, ..self }
    }

    pub open spec fn mute_toggled(self) -> Self {
        AudioPlayerState { muted: !self.muted, ..self }
    }

    pub open spec fn stopped(self) -> Self {
        AudioPlayerState { stop_requested: true, ..self }
    }
}

/// The transport controls of the audio side: volume, mute and stop.
///
/// Each control answers with the command for the audio sink, which the
/// caller owns and which does the playing.
pub struct AudioPlayer {
    is_muted: bool,
    original_volume: u32,
    stop_signal: bool,
    sample_rate: u32,
    channels: u16,
}

impl View for AudioPlayer {
    type V = AudioPlayerState;

    closed spec fn view(&self) -> AudioPlayerState {
        AudioPlayerState {
            muted: self.is_muted,
            original_volume: self.original_volume,
            stop_requested: self.stop_signal,
            sample_rate: self.sample_rate,
            channels: self.channels,
        }
    }
}

impl AudioPlayer {
    /// The controls for a medium. It must have an audio stream. Sample rate
    /// and channel count are those of the medium, or 44100 Hz and two
    /// channels where it states none. The volume starts at `1.0`, not muted.
    pub fn new(info: &MediaInfo) -> (result: Result<Self, MediaError>)
        ensures
            info.has_audio ==> ({
                &&& result matches Ok(player)
                &&& player@ == (AudioPlayerState {
                    muted: false,
                    original_volume: FULL_VOLUME,
                    stop_requested: false,
                    sample_rate: match info.sample_rate {
                        Some(rate) => rate,
                        None => DEFAULT_SAMPLE_RATE,
                    },
                    channels: match info.channels {
                        Some(channels) => channels,
                        None => DEFAULT_CHANNELS,
                    },
                })
            }),
            !info.has_audio ==> ({
                &&& result matches Err(MediaError::Audio(m))
                &&& m@ == "Media file has no audio stream"@
            }),
    {
        if !info.has_audio {
            return Err(MediaError::Audio(String::from_str("Media file has no audio stream")));
        }
        let sample_rate = match info.sample_rate {
            Some(rate) => rate,
            None => DEFAULT_SAMPLE_RATE,
        };
        let channels = match info.channels {
            Some(channels) => channels,
            None => DEFAULT_CHANNELS,
        };
        Ok(
            Self {
                is_muted: false,
                original_volume: FULL_VOLUME,
                stop_signal: false,
                sample_rate,
                channels,
            },
        )
    }

    pub fn play(&mut self) -> (command: SinkCommand)
        ensures
            final(self)@ == old(self)@,
            command == SinkCommand::Play,
    {
        SinkCommand::Play
    }

    pub fn pause(&mut self) -> (command: SinkCommand)
        ensures
            final(self)@ == old(self)@,
            command == SinkCommand::Pause,
    {
        SinkCommand::Pause
    }

    pub fn resume(&mut self) -> (command: SinkCommand)
        ensures
            final(self)@ == old(self)@,
            command == SinkCommand::Play,
    {
        SinkCommand::Play
    }

    /// Asks the decode thread to stop and the sink to drop what it holds.
    pub fn stop(&mut self) -> (command: SinkCommand)
        ensures
            final(self)@ == old(self)@.stopped(),
            command == SinkCommand::Stop,
    {
        self.stop_signal = true;
        SinkCommand::Stop
    }

    /// Sets the volume, held to the range from `0.0` to `1.0`. While muted
    /// the sink is left alone.
    pub fn set_volume(&mut self, volume: u32) -> (command: Option<SinkCommand>)
        ensures
            final(self)@ == old(self)@.volume_set(volume),
            command == if old(self)@.muted {
                None
            } else {
                Some(SinkCommand::SetVolume(clamp_unit(volume)))
            },
    {
        let clamped = clamp_volume(volume);
        self.original_volume = clamped;
        if !self.is_muted {
            Some(SinkCommand::SetVolume(clamped))
        } else {
            None
        }
    }

    /// The volume in effect: `0.0` while muted.
    pub fn volume(&self) -> (volume: u32)
        ensures
            volume == self@.volume(),
    {
        if self.is_muted {
            NO_VOLUME
        } else {
            self.original_volume
        }
    }

    pub fn mute(&mut self) -> (command: SinkCommand)
        ensures
            final(self)@ == old(self)@.muted(),
            command == SinkCommand::SetVolume(NO_VOLUME),
    {
        self.is_muted = true;
        SinkCommand::SetVolume(NO_VOLUME)
    }

    /// Ends the mute and gives the sink the volume that was set before or
    /// during it.
    pub fn unmute(&mut self) -> (command: SinkCommand)
        ensures
            final(self)@ == old(self)@.unmuted(),
            command == SinkCommand::SetVolume(old(self)@.original_volume),
    {
        self.is_muted = false;
        SinkCommand::SetVolume(self.original_volume)
    }

    pub fn toggle_mute(&mut self) -> (command: SinkCommand)
        ensures
            final(self)@ == old(self)@.mute_toggled(),
            command == if old(self)@.muted {
                SinkCommand::SetVolume(old(self)@.original_volume)
            } else {
                SinkCommand::SetVolume(NO_VOLUME)
            },
    {
        if self.is_muted {
            self.unmute()
        } else {
            self.mute()
        }
    }

    pub fn is_muted(&self) -> (muted: bool)
        ensures
            muted == self@.muted,
    {
        self.is_muted
    }

    /// Whether `stop` was called.
    pub fn stop_requested(&self) -> (requested: bool)
        ensures
            requested == self@.stop_requested,
    {
        self.stop_signal
    }

    pub fn sample_rate(&self) -> (rate: u32)
        ensures
            rate == self@.sample_rate,
    {
        self.sample_rate
    }

    pub fn channels(&self) -> (channels: u16)
        ensures
            channels == self@.channels,
    {
        self.channels
    }
}

/// Setting the volume, muting and unmuting reports the volume that was set,
/// held to the range from `0.0` to `1.0`; so a volume within that range comes
/// back as it was given.
pub proof fn lemma_mute_round_trip(state: AudioPlayerState, volume: u32)
    ensures
        state.volume_set(volume).muted().volume() == NO_VOLUME,
        state.volume_set(volume).muted().unmuted().volume() == clamp_unit(volume),
        is_unit_volume(volume) ==> state.volume_set(volume).muted().unmuted().volume() == volume,
{
}

/// A volume set while muted is the one reported after the mute ends.
pub proof fn lemma_volume_set_while_muted(state: AudioPlayerState, volume: u32)
    ensures
        state.muted().volume_set(volume).volume() == NO_VOLUME,
        state.muted().volume_set(volume).unmuted().volume() == clamp_unit(volume),
{
}

/// A volume is held within the range, and holding it twice changes nothing
/// more.
pub proof fn lemma_clamp_unit(bits: u32)
    ensures
        is_nan_bits(bits) || is_unit_volume(clamp_unit(bits)),
        clamp_unit(clamp_unit(bits)) == clamp_unit(bits),
        is_unit_volume(bits) ==> clamp_unit(bits) == bits,
{
}

} // verus!
