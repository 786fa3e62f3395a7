//! The audio-file boundary: which sample encodings are accepted, and how
//! samples are framed as the byte buffers that the engine works on.
//!
//! A session that exchanges audio with files works on 32-bit float samples. A
//! sample is held here as the bit pattern of its float, a `u32`, and a
//! waveform buffer is the little-endian bytes of its samples, one after the
//! other. Turning an integer sample into a float is arithmetic on floats and
//! is left to the caller; `SampleEncoding::full_scale` says what to divide by.

use vstd::prelude::*;

verus! {

/// Number of bytes of one 32-bit sample.
pub const BYTES_PER_SAMPLE: usize = 4;

/// How an audio file stores one sample.
#[derive(Debug, Copy, Clone, PartialEq, Eq, Structural)]
pub enum WavSampleFormat {
    /// IEEE float.
    Float,
    /// Signed integer.
    Int,
}

/// The header of an audio file.
#[derive(Debug, Copy, Clone, PartialEq, Eq, Structural)]
pub struct WavFormat {
    pub channels: u16,
    /// Samples per second.
    pub sample_rate: u32,
    pub bits_per_sample: u16,
    pub sample_format: WavSampleFormat,
}

/// The sample encodings that can be brought to 32-bit float.
#[derive(Debug, Copy, Clone, PartialEq, Eq, Structural)]
pub enum SampleEncoding {
    /// 32-bit float, taken as it is.
    F32,
    /// Signed 16-bit integer.
    I16,
    /// Signed 32-bit integer.
    I32,
}

/// Why an audio file is not taken.
#[derive(Debug, Copy, Clone, PartialEq, Eq, Structural)]
pub enum WavError {
    /// The file has this many channels, not one.
    NotMono(u16),
    /// No conversion exists for samples of this format and width.
    UnsupportedFormat(WavSampleFormat, u16),
}

impl SampleEncoding {
    /// Largest magnitude of an integer sample, by which it is divided to
    /// normalize it; `None` for floats, which are normalized already.
    pub open spec fn spec_full_scale(self) -> Option<int> {
        match self {
            SampleEncoding::F32 => None,
            SampleEncoding::I16 => Some(32767),
            SampleEncoding::I32 => Some(2147483647),
        }
    }

    pub fn full_scale(self) -> (r: Option<i32>)
        ensures
            r is Some <==> self.spec_full_scale() is Some,
            r matches Some(scale) ==> self.spec_full_scale() == Some(scale as int),
    {
        match self {
            SampleEncoding::F32 => None,
            SampleEncoding::I16 => Some(32767),
            SampleEncoding::I32 => Some(2147483647),
        }
    }
}

impl WavFormat {
    /// What `input_encoding` returns.
    pub open spec fn spec_input_encoding(self) -> Result<SampleEncoding, WavError> {
        if self.channels != 1 {
            Err(WavError::NotMono(self.channels))
        } else if self.sample_format == WavSampleFormat::Float && self.bits_per_sample == 32 {
            Ok(SampleEncoding::F32)
        } else if self.sample_format == WavSampleFormat::Int && self.bits_per_sample == 16 {
            Ok(SampleEncoding::I16)
        } else if self.sample_format == WavSampleFormat::Int && self.bits_per_sample == 32 {
            Ok(SampleEncoding::I32)
        } else {
            Err(WavError::UnsupportedFormat(self.sample_format, self.bits_per_sample))
        }
    }

    /// The header of a file that holds an encoded waveform: mono, 32-bit
    /// float, at the given rate.
    pub open spec fn spec_output(sample_rate: u32) -> WavFormat {
        WavFormat {
            channels: 1,
            sample_rate,
            bits_per_sample: 32,
            sample_format: WavSampleFormat::Float,
        }
    }

    /// Decides how the samples of a file with this header are to be read.
    ///
    /// Anything but mono is refused first. Of mono files, 32-bit float and
    /// 16-bit and 32-bit integer samples are taken, and nothing else.
    pub fn input_encoding(&self) -> (r: Result<SampleEncoding, WavError>)
        ensures
            r == self.spec_input_encoding(),
    {
        if self.channels != 1 {
            return Err(WavError::NotMono(self.channels));
        }
        match (self.sample_format, self.bits_per_sample) {
            (WavSampleFormat::Float, 32) => Ok(SampleEncoding::F32),
            (WavSampleFormat::Int, 16) => Ok(SampleEncoding::I16),
            (WavSampleFormat::Int, 32) => Ok(SampleEncoding::I32),
            _ => Err(WavError::UnsupportedFormat(self.sample_format, self.bits_per_sample)),
        }
    }

    pub fn output(sample_rate: u32) -> (format: WavFormat)
        ensures
            format == Self::spec_output(sample_rate),
    {
        WavFormat {
            channels: 1,
            sample_rate,
            bits_per_sample: 32,
            sample_format: WavSampleFormat::Float,
        }
    }
}

/// Byte `k` of `sample` in little-endian order, for `k` from 0 to 3.
pub open spec fn sample_byte(sample: u32, k: int) -> u8 {
    if k == 0 {
        (sample & 0xff) as u8
    } else if k == 1 {
        ((sample >> 8) & 0xff) as u8
    } else if k == 2 {
        ((sample >> 16) & 0xff) as u8
    } else {
        ((sample >> 24) & 0xff) as u8
    }
}

/// The sample whose little-endian bytes are `b0` to `b3`.
pub open spec fn sample_of(b0: u8, b1: u8, b2: u8, b3: u8) -> u32 {
    (b0 as u32) | ((b1 as u32) << 8) | ((b2 as u32) << 16) | ((b3 as u32) << 24)
}

/// The waveform buffer of `samples`: four bytes for each, in order.
pub open spec fn packed(samples: Seq<u32>) -> Seq<u8> {
    Seq::new(4 * samples.len(), |i: int| sample_byte(samples[i / 4], i % 4))
}

/// The samples of a waveform buffer: one for each whole group of four bytes;
/// up to three bytes at the end belong to no sample.
pub open spec fn unpacked(bytes: Seq<u8>) -> Seq<u32> {
    Seq::new(
        bytes.len() / 4,
        |i: int| sample_of(bytes[4 * i], bytes[4 * i + 1], bytes[4 * i + 2], bytes[4 * i + 3]),
    )
}

/// Taking a sample apart and putting its bytes together gives the sample.
pub proof fn lemma_sample_of_bytes(sample: u32)
    ensures
        sample_of(
            sample_byte(sample, 0),
            sample_byte(sample, 1),
            sample_byte(sample, 2),
            sample_byte(sample, 3),
        ) == sample,
{
    assert(((sample & 0xff) as u8 as u32) | ((((sample >> 8) & 0xff) as u8 as u32) << 8) | ((((
    sample >> 16) & 0xff) as u8 as u32) << 16) | ((((sample >> 24) & 0xff) as u8 as u32) << 24)
        == sample) by (bit_vector);
}

/// Putting four bytes together and taking the sample apart gives the bytes.
pub proof fn lemma_bytes_of_sample(b0: u8, b1: u8, b2: u8, b3: u8)
    ensures
        sample_byte(sample_of(b0, b1, b2, b3), 0) == b0,
        sample_byte(sample_of(b0, b1, b2, b3), 1) == b1,
        sample_byte(sample_of(b0, b1, b2, b3), 2) == b2,
        sample_byte(sample_of(b0, b1, b2, b3), 3) == b3,
{
    let w = sample_of(b0, b1, b2, b3);
    assert(w == (b0 as u32) | ((b1 as u32) << 8) | ((b2 as u32) << 16) | ((b3 as u32) << 24));
    assert(w == (b0 as u32) | ((b1 as u32) << 8) | ((b2 as u32) << 16) | ((b3 as u32) << 24) ==> (w
        & 0xff) as u8 == b0 && ((w >> 8) & 0xff) as u8 == b1 && ((w >> 16) & 0xff) as u8 == b2 && ((
    w >> 24) & 0xff) as u8 == b3) by (bit_vector);
}

/// Unpacking a packed waveform gives back the samples.
pub proof fn lemma_unpack_packed(samples: Seq<u32>)
    ensures
        unpacked(packed(samples)) == samples,
{
    let bytes = packed(samples);
    assert forall|i: int| 0 <= i < samples.len() implies #[trigger] unpacked(bytes)[i]
        == samples[i] by {
        lemma_sample_of_bytes(samples[i]);
        assert((4 * i) / 4 == i && (4 * i) % 4 == 0);
        assert((4 * i + 1) / 4 == i && (4 * i + 1) % 4 == 1);
        assert((4 * i + 2) / 4 == i && (4 * i + 2) % 4 == 2);
        assert((4 * i + 3) / 4 == i && (4 * i + 3) % 4 == 3);
    }
    assert(unpacked(bytes) =~= samples);
}

/// Packing the samples of a buffer gives back the buffer without the bytes
/// at its end that belong to no sample.
pub proof fn lemma_pack_unpacked(bytes: Seq<u8>)
    ensures
        packed(unpacked(bytes)) == bytes.take(4 * (bytes.len() as int / 4)),
{
    let samples = unpacked(bytes);
    let whole = bytes.take(4 * (bytes.len() as int / 4));
    assert forall|j: int| 0 <= j < whole.len() implies #[trigger] packed(samples)[j]
        == whole[j] by {
        let i = j / 4;
        lemma_bytes_of_sample(bytes[4 * i], bytes[4 * i + 1], bytes[4 * i + 2], bytes[4 * i + 3]);
        assert(j == 4 * i + j % 4);
    }
    assert(packed(samples) =~= whole);
}

/// Lays `samples` out as a waveform buffer.
pub fn pack_samples(samples: &[u32]) -> (bytes: Vec<u8>)
    ensures
        bytes@ == packed(samples@),
{
    let mut bytes: Vec<u8> = Vec::new();
    let mut i: usize = 0;
    while i < samples.len()
        invariant
            i <= samples@.len(),
            bytes@ == packed(samples@.take(i as int)),
        decreases samples@.len() - i,
    {
        let sample = samples[i];
        let ghost before = bytes@;
        bytes.push((sample & 0xff) as u8);
        bytes.push(((sample >> 8) & 0xff) as u8);
        bytes.push(((sample >> 16) & 0xff) as u8);
        bytes.push(((sample >> 24) & 0xff) as u8);
        proof {
            let next = samples@.take(i as int + 1);
            assert forall|j: int| 0 <= j < 4 * (i + 1) implies #[trigger] bytes@[j] == packed(
                next,
            )[j] by {
                if j < 4 * i {
                    assert(bytes@[j] == before[j]);
                    assert(samples@.take(i as int)[j / 4] == next[j / 4]);
                } else {
                    assert(j / 4 == i as int);
                    assert(next[i as int] == sample);
                }
            }
            assert(bytes@ =~= packed(next));
        }
        i = i + 1;
    }
    assert(samples@.take(i as int) =~= samples@);
    bytes
}

/// Reads the samples of a waveform buffer.
pub fn unpack_samples(bytes: &[u8]) -> (samples: Vec<u32>)
    ensures
        samples@ == unpacked(bytes@),
{
    let count = bytes.len() / 4;
    let mut samples: Vec<u32> = Vec::new();
    let mut i: usize = 0;
    while i < count
        invariant
            bytes@.len() <= usize::MAX,
            count == bytes@.len() / 4,
            i <= count,
            samples@ == unpacked(bytes@).take(i as int),
        decreases count - i,
    {
        assert(4 * i + 3 < bytes@.len()) by {
            assert(4 * (bytes@.len() as int / 4) <= bytes@.len());
        }
        let at = 4 * i;
        let b0 = bytes[at];
        let b1 = bytes[at + 1];
        let b2 = bytes[at + 2];
        let b3 = bytes[at + 3];
        let sample = (b0 as u32) | ((b1 as u32) << 8) | ((b2 as u32) << 16) | ((b3 as u32) << 24);
        samples.push(sample);
        assert(samples@ =~= unpacked(bytes@).take(i as int + 1));
        i = i + 1;
    }
    assert(unpacked(bytes@).take(i as int) =~= unpacked(bytes@));
    samples
}

} // verus!
