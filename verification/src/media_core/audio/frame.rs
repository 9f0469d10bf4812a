//! Audio frames: a block of samples for every channel, either one channel
//! after the other (planar) or sample by sample across the channels
//! (interleaved).

use std::time::Duration;
use vstd::arithmetic::div_mod::lemma_fundamental_div_mod_converse;
use vstd::prelude::*;

verus! {

/// How one sample is stored.
#[derive(Debug, Clone, Copy, PartialEq, Eq, Structural)]
pub enum AudioFormat {
    /// 8 bits, unsigned
    U8,
    /// 16 bits, signed, little endian
    S16LE,
    /// 16 bits, signed, big endian
    S16BE,
    /// 24 bits, signed
    S24LE,
    /// 32 bits, signed
    S32LE,
    /// 32-bit float
    F32LE,
    /// 64-bit float
    F64LE,
}

impl AudioFormat {
    pub open spec fn spec_bytes_per_sample(&self) -> usize {
        match self {
            AudioFormat::U8 => 1,
            AudioFormat::S16LE | AudioFormat::S16BE => 2,
            AudioFormat::S24LE => 3,
            AudioFormat::S32LE | AudioFormat::F32LE => 4,
            AudioFormat::F64LE => 8,
        }
    }

    #[verifier::when_used_as_spec(spec_bytes_per_sample)]
    pub fn bytes_per_sample(&self) -> (bytes: usize)
        ensures
            bytes == self.spec_bytes_per_sample(),
            1 <= bytes <= 8,
    {
        match self {
            AudioFormat::U8 => 1,
            AudioFormat::S16LE | AudioFormat::S16BE => 2,
            AudioFormat::S24LE => 3,
            AudioFormat::S32LE | AudioFormat::F32LE => 4,
            AudioFormat::F64LE => 8,
        }
    }

    pub fn is_float(&self) -> (yes: bool)
        ensures
            yes == (*self is F32LE || *self is F64LE),
    {
        matches!(self, AudioFormat::F32LE | AudioFormat::F64LE)
    }
}

/// The piece of `width` bytes that stands at row `i`, column `j` of a
/// column-major table with `rows` rows. A piece that does not lie within
/// `data` is empty.
pub open spec fn piece(data: Seq<u8>, rows: nat, i: nat, j: nat, width: nat) -> Seq<u8> {
    let start = (j * rows + i) * width;
    if start + width <= data.len() {
        data.subrange(start as int, (start + width) as int)
    } else {
        Seq::empty()
    }
}

/// The first `count` pieces of a column-major table of `rows` rows and `cols`
/// columns, read row by row.
pub open spec fn regrouped(data: Seq<u8>, rows: nat, cols: nat, width: nat, count: nat) -> Seq<u8>
    decreases count,
{
    if count == 0 || cols == 0 {
        Seq::empty()
    } else {
        let k = (count - 1) as nat;
        regrouped(data, rows, cols, width, k) + piece(data, rows, k / cols, k % cols, width)
    }
}

/// Planar data sample by sample: for each sample in turn, its bytes in each
/// channel.
pub open spec fn interleaved(data: Seq<u8>, samples: nat, channels: nat, width: nat) -> Seq<u8> {
    regrouped(data, samples, channels, width, samples * channels)
}

/// Interleaved data channel by channel: for each channel in turn, its bytes
/// in each sample.
pub open spec fn deinterleaved(data: Seq<u8>, samples: nat, channels: nat, width: nat) -> Seq<u8> {
    regrouped(data, channels, samples, width, channels * samples)
}

/// Reads a column-major table of pieces row by row.
fn regroup(data: &Vec<u8>, rows: usize, cols: usize, width: usize) -> (out: Vec<u8>)
    requires
        1 <= width <= 8,
        rows <= u16::MAX || cols <= u16::MAX,
    ensures
        out@ == regrouped(data@, rows as nat, cols as nat, width as nat, (rows * cols) as nat),
{
    let mut out: Vec<u8> = Vec::new();
    let len: usize = data.len();
    let mut i: usize = 0;
    while i < rows
        invariant
            1 <= width <= 8,
            rows <= u16::MAX || cols <= u16::MAX,
            len == data@.len(),
            i <= rows,
            out@ == regrouped(data@, rows as nat, cols as nat, width as nat, (i * cols) as nat),
        decreases rows - i,
    {
        let mut j: usize = 0;
        while j < cols
            invariant
                1 <= width <= 8,
                rows <= u16::MAX || cols <= u16::MAX,
                len == data@.len(),
                i < rows,
                j <= cols,
                out@ == regrouped(
                    data@,
                    rows as nat,
                    cols as nat,
                    width as nat,
                    (i * cols + j) as nat,
                ),
            decreases cols - j,
        {
            proof {
                lemma_table_bounds(i as nat, j as nat, rows as nat, cols as nat, width as nat);
                lemma_fundamental_div_mod_converse((i * cols + j) as int, cols as int, i as int, j as int);
            }
            let start: u128 = ((j as u128) * (rows as u128) + (i as u128)) * (width as u128);
            let end: u128 = start + (width as u128);
            let ghost before = out@;
            if end <= len as u128 {
                let from: usize = start as usize;
                let mut b: usize = 0;
                while b < width
                    invariant
                        b <= width,
                        from + width <= len,
                        len == data@.len(),
                        out@ == before + data@.subrange(from as int, from + b),
                    decreases width - b,
                {
                    out.push(data[from + b]);
                    assert(data@.subrange(from as int, from + b + 1) == data@.subrange(
                        from as int,
                        from + b,
                    ).push(data@[from + b]));
                    b += 1;
                }
            } else {
                assert(before + Seq::<u8>::empty() == before);
            }
            assert(out@ == before + piece(data@, rows as nat, i as nat, j as nat, width as nat));
            j += 1;
        }
        assert(i * cols + cols == (i + 1) * cols) by (nonlinear_arith);
        i += 1;
    }
    out
}

/// The places in a table stay within what the machine can count.
proof fn lemma_table_bounds(i: nat, j: nat, rows: nat, cols: nat, width: nat)
    requires
        i < rows,
        j < cols,
        rows <= usize::MAX,
        cols <= usize::MAX,
        rows <= u16::MAX || cols <= u16::MAX,
        width <= 8,
    ensures
        i * cols + j < rows * cols,
        rows * cols <= u16::MAX * usize::MAX,
        j * rows + i < rows * cols,
        0 <= i * cols,
        0 <= j * rows,
        (j * rows + i) * width + width <= 8 * (u16::MAX * usize::MAX),
{
    assert((j * rows + i) * width + width <= 8 * (u16::MAX * usize::MAX)) by (nonlinear_arith)
        requires
            i < rows,
            j < cols,
            rows <= usize::MAX,
            cols <= usize::MAX,
            rows <= u16::MAX || cols <= u16::MAX,
            width <= 8,
    ;
    assert(i * cols + j < rows * cols) by (nonlinear_arith)
        requires
            i < rows,
            j < cols,
    ;
    assert(j * rows + i < rows * cols) by (nonlinear_arith)
        requires
            i < rows,
            j < cols,
    ;
    assert(rows * cols <= u16::MAX * usize::MAX) by (nonlinear_arith)
        requires
            rows <= usize::MAX,
            cols <= usize::MAX,
            rows <= u16::MAX || cols <= u16::MAX,
    ;
    assert(0 <= i * cols && 0 <= j * rows) by (nonlinear_arith);
}

/// Where the table is full, each of the first `count` pieces has `width`
/// bytes.
pub proof fn lemma_regrouped_len(data: Seq<u8>, rows: nat, cols: nat, width: nat, count: nat)
    requires
        count <= rows * cols,
        rows * cols * width <= data.len(),
    ensures
        regrouped(data, rows, cols, width, count).len() == count * width,
    decreases count,
{
    if count > 0 && cols > 0 {
        let k = (count - 1) as nat;
        lemma_regrouped_len(data, rows, cols, width, k);
        lemma_piece_in_table(data, rows, cols, width, k);
        assert(k * width + width == count * width) by (nonlinear_arith)
            requires
                k + 1 == count,
        ;
    } else if count > 0 {
        assert(rows * cols == 0) by (nonlinear_arith)
            requires
                cols == 0,
        ;
    } else {
        assert(count * width == 0) by (nonlinear_arith)
            requires
                count == 0,
        ;
    }
}

/// Where the table is full, the piece with the number `k` lies within the
/// data and has `width` bytes.
proof fn lemma_piece_in_table(data: Seq<u8>, rows: nat, cols: nat, width: nat, k: nat)
    requires
        k < rows * cols,
        cols > 0,
        rows * cols * width <= data.len(),
    ensures
        k / cols < rows,
        k % cols < cols,
        ((k % cols) * rows + k / cols) * width + width <= data.len(),
        piece(data, rows, k / cols, k % cols, width).len() == width,
        piece(data, rows, k / cols, k % cols, width) == data.subrange(
            (((k % cols) * rows + k / cols) * width) as int,
            (((k % cols) * rows + k / cols) * width + width) as int,
        ),
{
    let i = k / cols;
    let j = k % cols;
    assert(i < rows && j < cols && k == i * cols + j) by (nonlinear_arith)
        requires
            k < rows * cols,
            cols > 0,
            i == k / cols,
            j == k % cols,
    ;
    assert((j * rows + i) * width + width <= rows * cols * width) by (nonlinear_arith)
        requires
            i < rows,
            j < cols,
    ;
}

/// Where the table is full, byte `b` of the piece with the number `k` comes
/// from row `k / cols`, column `k % cols` of the table.
pub proof fn lemma_regrouped_at(
    data: Seq<u8>,
    rows: nat,
    cols: nat,
    width: nat,
    count: nat,
    k: nat,
    b: nat,
)
    requires
        k < count <= rows * cols,
        b < width,
        rows * cols * width <= data.len(),
    ensures
        cols > 0,
        k * width + b < regrouped(data, rows, cols, width, count).len(),
        regrouped(data, rows, cols, width, count)[(k * width + b) as int] == data[(((k % cols)
            * rows + k / cols) * width + b) as int],
    decreases count,
{
    if cols == 0 {
        assert(rows * cols == 0) by (nonlinear_arith)
            requires
                cols == 0,
        ;
    } else {
        let last = (count - 1) as nat;
        lemma_regrouped_len(data, rows, cols, width, last);
        lemma_regrouped_len(data, rows, cols, width, count);
        lemma_piece_in_table(data, rows, cols, width, last);
        assert(k * width + b < count * width) by (nonlinear_arith)
            requires
                k < count,
                b < width,
        ;
        if k == last {
        } else {
            assert(k * width + b < last * width) by (nonlinear_arith)
                requires
                    k < last,
                    b < width,
            ;
            lemma_regrouped_at(data, rows, cols, width, last, k, b);
        }
    }
}

/// Interleaving planar data that holds every sample puts byte `b` of sample
/// `s` of channel `c` at its place in the frame of sample `s`.
pub proof fn lemma_interleaved_sample(
    data: Seq<u8>,
    samples: nat,
    channels: nat,
    width: nat,
    s: nat,
    c: nat,
    b: nat,
)
    requires
        s < samples,
        c < channels,
        b < width,
        samples * channels * width <= data.len(),
    ensures
        interleaved(data, samples, channels, width).len() == samples * channels * width,
        (s * channels + c) * width + b < samples * channels * width,
        interleaved(data, samples, channels, width)[((s * channels + c) * width + b) as int]
            == data[((c * samples + s) * width + b) as int],
{
    let k = s * channels + c;
    assert(k < samples * channels) by (nonlinear_arith)
        requires
            k == s * channels + c,
            s < samples,
            c < channels,
    ;
    lemma_fundamental_div_mod_converse(k as int, channels as int, s as int, c as int);
    lemma_regrouped_len(data, samples, channels, width, samples * channels);
    lemma_regrouped_at(data, samples, channels, width, samples * channels, k, b);
}

/// Regrouping interleaved data that holds every sample puts byte `b` of
/// sample `s` of channel `c` at its place in the run of channel `c`.
pub proof fn lemma_deinterleaved_sample(
    data: Seq<u8>,
    samples: nat,
    channels: nat,
    width: nat,
    s: nat,
    c: nat,
    b: nat,
)
    requires
        s < samples,
        c < channels,
        b < width,
        channels * samples * width <= data.len(),
    ensures
        deinterleaved(data, samples, channels, width).len() == channels * samples * width,
        (c * samples + s) * width + b < channels * samples * width,
        deinterleaved(data, samples, channels, width)[((c * samples + s) * width + b) as int]
            == data[((s * channels + c) * width + b) as int],
{
    let k = c * samples + s;
    assert(k < channels * samples) by (nonlinear_arith)
        requires
            k == c * samples + s,
            s < samples,
            c < channels,
    ;
    lemma_fundamental_div_mod_converse(k as int, samples as int, c as int, s as int);
    lemma_regrouped_len(data, channels, samples, width, channels * samples);
    lemma_regrouped_at(data, channels, samples, width, channels * samples, k, b);
}

/// A block of decoded audio.
#[derive(Debug, Clone)]
pub struct AudioFrame {
    /// The sample bytes, interleaved or planar
    pub data: Vec<u8>,
    /// The number of samples in each channel
    pub samples: usize,
    pub channels: u16,
    /// Samples per second
    pub sample_rate: u32,
    pub format: AudioFormat,
    pub timestamp: Duration,
    /// Presentation time stamp
    pub pts: i64,
    /// Whether the bytes are stored one channel after the other
    pub is_planar: bool,
}

impl AudioFrame {
    /// The number of bytes that the samples of all channels take.
    pub open spec fn spec_total_bytes(&self) -> int {
        self.samples * self.channels * self.format.spec_bytes_per_sample()
    }

    pub fn new(
        data: Vec<u8>,
        samples: usize,
        channels: u16,
        sample_rate: u32,
        format: AudioFormat,
        timestamp: Duration,
        pts: i64,
        is_planar: bool,
    ) -> (frame: Self)
        ensures
            frame == (AudioFrame {
                data,
                samples,
                channels,
                sample_rate,
                format,
                timestamp,
                pts,
                is_planar,
            }),
    {
        Self { data, samples, channels, sample_rate, format, timestamp, pts, is_planar }
    }

    /// The number of bytes that the samples of all channels take. It must
    /// fit into a `usize`.
    pub fn total_bytes(&self) -> (bytes: usize)
        requires
            self.spec_total_bytes() <= usize::MAX,
        ensures
            bytes == self.spec_total_bytes(),
    {
        let width: usize = self.format.bytes_per_sample();
        assert(self.samples * self.channels <= self.samples * self.channels * width)
            by (nonlinear_arith)
            requires
                width >= 1,
        ;
        self.samples * (self.channels as usize) * width
    }

    /// The frame with its samples interleaved. An interleaved frame comes
    /// back as it is. Samples that lie beyond the end of the data are left
    /// out.
    pub fn to_interleaved(&self) -> (frame: AudioFrame)
        ensures
            frame.samples == self.samples,
            frame.channels == self.channels,
            frame.sample_rate == self.sample_rate,
            frame.format == self.format,
            frame.timestamp == self.timestamp,
            frame.pts == self.pts,
            !frame.is_planar,
            frame.data@ == if self.is_planar {
                interleaved(
                    self.data@,
                    self.samples as nat,
                    self.channels as nat,
                    self.format.spec_bytes_per_sample() as nat,
                )
            } else {
                self.data@
            },
    {
        if !self.is_planar {
            return AudioFrame::new(
                self.data.clone(),
                self.samples,
                self.channels,
                self.sample_rate,
                self.format,
                self.timestamp,
                self.pts,
                false,
            );
        }
        let data = regroup(
            &self.data,
            self.samples,
            self.channels as usize,
            self.format.bytes_per_sample(),
        );
        AudioFrame::new(
            data,
            self.samples,
            self.channels,
            self.sample_rate,
            self.format,
            self.timestamp,
            self.pts,
            false,
        )
    }

    /// The frame with its samples regrouped channel by channel. A frame
    /// that is not marked planar comes back as it is; one that is has its
    /// data read as interleaved and regrouped, and stays marked planar.
    /// Samples that lie beyond the end of the data are left out.
    pub fn to_planar(&self) -> (frame: AudioFrame)
        ensures
            frame.samples == self.samples,
            frame.channels == self.channels,
            frame.sample_rate == self.sample_rate,
            frame.format == self.format,
            frame.timestamp == self.timestamp,
            frame.pts == self.pts,
            frame.is_planar == self.is_planar,
            frame.data@ == if self.is_planar {
                deinterleaved(
                    self.data@,
                    self.samples as nat,
                    self.channels as nat,
                    self.format.spec_bytes_per_sample() as nat,
                )
            } else {
                self.data@
            },
    {
        if !self.is_planar {
            return AudioFrame::new(
                self.data.clone(),
                self.samples,
                self.channels,
                self.sample_rate,
                self.format,
                self.timestamp,
                self.pts,
                false,
            );
        }
        let data = regroup(
            &self.data,
            self.channels as usize,
            self.samples,
            self.format.bytes_per_sample(),
        );
        AudioFrame::new(
            data,
            self.samples,
            self.channels,
            self.sample_rate,
            self.format,
            self.timestamp,
            self.pts,
            true,
        )
    }
}

} // verus!
