//! Audio samples as the decode process writes them: 32-bit floats, four
//! bytes each, least significant byte first.
//!
//! A sample is held as the bit pattern of its float, a `u32`. Reading the
//! pattern as a float and back changes nothing, so nothing is lost on the way
//! to the audio sink, which turns each pattern into its float.

use vstd::prelude::*;

verus! {

/// The bit pattern of `0.0`: silence.
pub const SILENCE: u32 = 0;

/// The number of bytes of one sample.
pub const BYTES_PER_SAMPLE: usize = 4;

/// The 32-bit word whose bytes, least significant first, are `b0` to `b3`.
pub open spec fn le_word(b0: u8, b1: u8, b2: u8, b3: u8) -> u32 {
    (b0 as int + 256 * (b1 as int) + 65536 * (b2 as int) + 16777216 * (b3 as int)) as u32
}

/// The byte at place `k` (0 to 3, least significant first) of `word`.
pub open spec fn le_byte(word: u32, k: int) -> u8 {
    if k == 0 {
        (word as int % 256) as u8
    } else if k == 1 {
        (word as int / 256 % 256) as u8
    } else if k == 2 {
        (word as int / 65536 % 256) as u8
    } else {
        (word as int / 16777216 % 256) as u8
    }
}

/// The float with this bit pattern is finite: its exponent bits (the eight
/// below the sign bit) are not all ones. The patterns with all ones there
/// are the two infinities and the NaNs.
pub open spec fn is_finite_bits(bits: u32) -> bool {
    bits < 0x7F80_0000 || (0x8000_0000 <= bits && bits < 0xFF80_0000)
}

/// The sample that four bytes stand for: the float they spell if it is
/// finite, silence if it is not.
pub open spec fn sample_of(b0: u8, b1: u8, b2: u8, b3: u8) -> u32 {
    if is_finite_bits(le_word(b0, b1, b2, b3)) {
        le_word(b0, b1, b2, b3)
    } else {
        SILENCE
    }
}

/// The samples that a run of bytes stands for: one for every four bytes, in
/// order. Bytes after the last full group of four are left out.
pub open spec fn samples_of(bytes: Seq<u8>) -> Seq<u32> {
    Seq::new(
        (bytes.len() / 4) as nat,
        |i: int| sample_of(bytes[4 * i], bytes[4 * i + 1], bytes[4 * i + 2], bytes[4 * i + 3]),
    )
}

/// Whether the float with this bit pattern is finite.
pub fn is_finite(bits: u32) -> (finite: bool)
    ensures
        finite == is_finite_bits(bits),
{
    bits < 0x7F80_0000 || (0x8000_0000 <= bits && bits < 0xFF80_0000)
}

/// Turns four bytes into a sample.
pub fn sample_from_le_bytes(b0: u8, b1: u8, b2: u8, b3: u8) -> (sample: u32)
    ensures
        sample == sample_of(b0, b1, b2, b3),
{
    let word: u32 = b0 as u32 + 256 * (b1 as u32) + 65536 * (b2 as u32) + 16777216 * (b3 as u32);
    if is_finite(word) {
        word
    } else {
        SILENCE
    }
}

/// Turns the bytes that were read into samples.
pub fn samples_from_bytes(bytes: &[u8]) -> (samples: Vec<u32>)
    ensures
        samples@ == samples_of(bytes@),
{
    let count: usize = bytes.len() / 4;
    let mut samples: Vec<u32> = Vec::with_capacity(count);
    let mut i: usize = 0;
    while i < count
        invariant
            count == bytes@.len() / 4,
            count * 4 <= bytes@.len() <= usize::MAX,
            i <= count,
            samples@.len() == i,
            forall|k: int| 0 <= k < i ==> samples@[k] == samples_of(bytes@)[k],
        decreases count - i,
    {
        let offset: usize = i * 4;
        let sample = sample_from_le_bytes(
            bytes[offset],
            bytes[offset + 1],
            bytes[offset + 2],
            bytes[offset + 3],
        );
        samples.push(sample);
        i += 1;
    }
    assert(samples@ =~= samples_of(bytes@));
    samples
}

/// The conversion loses nothing of a finite float: the sample is the word the
/// bytes spell, and its own bytes are the bytes it came from.
pub proof fn lemma_finite_sample_is_lossless(b0: u8, b1: u8, b2: u8, b3: u8)
    requires
        is_finite_bits(le_word(b0, b1, b2, b3)),
    ensures
        sample_of(b0, b1, b2, b3) == le_word(b0, b1, b2, b3),
        le_byte(sample_of(b0, b1, b2, b3), 0) == b0,
        le_byte(sample_of(b0, b1, b2, b3), 1) == b1,
        le_byte(sample_of(b0, b1, b2, b3), 2) == b2,
        le_byte(sample_of(b0, b1, b2, b3), 3) == b3,
{
}

/// Bytes that spell an infinity or a NaN become exactly `0.0`.
pub proof fn lemma_non_finite_sample_is_silence(b0: u8, b1: u8, b2: u8, b3: u8)
    requires
        !is_finite_bits(le_word(b0, b1, b2, b3)),
    ensures
        sample_of(b0, b1, b2, b3) == SILENCE,
        SILENCE == 0,
{
}

/// Every sample that comes out of the conversion is finite.
pub proof fn lemma_samples_are_finite(bytes: Seq<u8>, i: int)
    requires
        0 <= i < bytes.len() / 4,
    ensures
        is_finite_bits(samples_of(bytes)[i]),
{
}

} // verus!
