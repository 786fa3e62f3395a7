//! The values that cross the engine boundary: enumerations with their integer
//! codes, the operating-mode flags and the configuration record.
//!
//! The engine numbers each enumeration from zero in declaration order. The
//! `code` and `from_code` functions are the only place where that numbering is
//! written down.

use vstd::prelude::*;

verus! {

/// Number of handles in the engine's process-wide pool.
pub const GGWAVE_MAX_INSTANCES: i32 = 4;

/// How one audio sample is laid out in a waveform buffer.
#[derive(Debug, Copy, Clone, PartialEq, Eq, Structural)]
pub enum ggwave_SampleFormat {
    GGWAVE_SAMPLE_FORMAT_UNDEFINED,
    GGWAVE_SAMPLE_FORMAT_U8,
    GGWAVE_SAMPLE_FORMAT_I8,
    GGWAVE_SAMPLE_FORMAT_U16,
    GGWAVE_SAMPLE_FORMAT_I16,
    GGWAVE_SAMPLE_FORMAT_F32,
}

impl ggwave_SampleFormat {
    /// The integer that stands for this value at the engine boundary.
    pub open spec fn spec_code(self) -> int {
        match self {
            ggwave_SampleFormat::GGWAVE_SAMPLE_FORMAT_UNDEFINED => 0,
            ggwave_SampleFormat::GGWAVE_SAMPLE_FORMAT_U8 => 1,
            ggwave_SampleFormat::GGWAVE_SAMPLE_FORMAT_I8 => 2,
            ggwave_SampleFormat::GGWAVE_SAMPLE_FORMAT_U16 => 3,
            ggwave_SampleFormat::GGWAVE_SAMPLE_FORMAT_I16 => 4,
            ggwave_SampleFormat::GGWAVE_SAMPLE_FORMAT_F32 => 5,
        }
    }

    pub fn code(self) -> (c: i32)
        ensures
            c == self.spec_code(),
            0 <= c <= 5,
    {
        match self {
            ggwave_SampleFormat::GGWAVE_SAMPLE_FORMAT_UNDEFINED => 0,
            ggwave_SampleFormat::GGWAVE_SAMPLE_FORMAT_U8 => 1,
            ggwave_SampleFormat::GGWAVE_SAMPLE_FORMAT_I8 => 2,
            ggwave_SampleFormat::GGWAVE_SAMPLE_FORMAT_U16 => 3,
            ggwave_SampleFormat::GGWAVE_SAMPLE_FORMAT_I16 => 4,
            ggwave_SampleFormat::GGWAVE_SAMPLE_FORMAT_F32 => 5,
        }
    }

    /// The value that `code` stands for, if it stands for one.
    pub fn from_code(code: i32) -> (r: Option<ggwave_SampleFormat>)
        ensures
            r is Some <==> 0 <= code <= 5,
            r matches Some(v) ==> v.spec_code() == code,
    {
        match code {
            0 => Some(ggwave_SampleFormat::GGWAVE_SAMPLE_FORMAT_UNDEFINED),
            1 => Some(ggwave_SampleFormat::GGWAVE_SAMPLE_FORMAT_U8),
            2 => Some(ggwave_SampleFormat::GGWAVE_SAMPLE_FORMAT_I8),
            3 => Some(ggwave_SampleFormat::GGWAVE_SAMPLE_FORMAT_U16),
            4 => Some(ggwave_SampleFormat::GGWAVE_SAMPLE_FORMAT_I16),
            5 => Some(ggwave_SampleFormat::GGWAVE_SAMPLE_FORMAT_F32),
            _ => None,
        }
    }
}

/// Selects the modulation protocol of one transmission: audible, ultrasound,
/// dual-tone or mono-tone at one of three speeds, or a custom slot.
/// `GGWAVE_PROTOCOL_COUNT` is the number of protocols, not a protocol.
#[derive(Debug, Copy, Clone, PartialEq, Eq, Structural)]
pub enum ggwave_ProtocolId {
    GGWAVE_PROTOCOL_AUDIBLE_NORMAL,
    GGWAVE_PROTOCOL_AUDIBLE_FAST,
    GGWAVE_PROTOCOL_AUDIBLE_FASTEST,
    GGWAVE_PROTOCOL_ULTRASOUND_NORMAL,
    GGWAVE_PROTOCOL_ULTRASOUND_FAST,
    GGWAVE_PROTOCOL_ULTRASOUND_FASTEST,
    GGWAVE_PROTOCOL_DT_NORMAL,
    GGWAVE_PROTOCOL_DT_FAST,
    GGWAVE_PROTOCOL_DT_FASTEST,
    GGWAVE_PROTOCOL_MT_NORMAL,
    GGWAVE_PROTOCOL_MT_FAST,
    GGWAVE_PROTOCOL_MT_FASTEST,
    GGWAVE_PROTOCOL_CUSTOM_0,
    GGWAVE_PROTOCOL_CUSTOM_1,
    GGWAVE_PROTOCOL_CUSTOM_2,
    GGWAVE_PROTOCOL_CUSTOM_3,
    GGWAVE_PROTOCOL_CUSTOM_4,
    GGWAVE_PROTOCOL_CUSTOM_5,
    GGWAVE_PROTOCOL_CUSTOM_6,
    GGWAVE_PROTOCOL_CUSTOM_7,
    GGWAVE_PROTOCOL_CUSTOM_8,
    GGWAVE_PROTOCOL_CUSTOM_9,
    GGWAVE_PROTOCOL_COUNT,
}

impl ggwave_ProtocolId {
    /// The integer that stands for this value at the engine boundary.
    pub open spec fn spec_code(self) -> int {
        match self {
            ggwave_ProtocolId::GGWAVE_PROTOCOL_AUDIBLE_NORMAL => 0,
            ggwave_ProtocolId::GGWAVE_PROTOCOL_AUDIBLE_FAST => 1,
            ggwave_ProtocolId::GGWAVE_PROTOCOL_AUDIBLE_FASTEST => 2,
            ggwave_ProtocolId::GGWAVE_PROTOCOL_ULTRASOUND_NORMAL => 3,
            ggwave_ProtocolId::GGWAVE_PROTOCOL_ULTRASOUND_FAST => 4,
            ggwave_ProtocolId::GGWAVE_PROTOCOL_ULTRASOUND_FASTEST => 5,
            ggwave_ProtocolId::GGWAVE_PROTOCOL_DT_NORMAL => 6,
            ggwave_ProtocolId::GGWAVE_PROTOCOL_DT_FAST => 7,
            ggwave_ProtocolId::GGWAVE_PROTOCOL_DT_FASTEST => 8,
            ggwave_ProtocolId::GGWAVE_PROTOCOL_MT_NORMAL => 9,
            ggwave_ProtocolId::GGWAVE_PROTOCOL_MT_FAST => 10,
            ggwave_ProtocolId::GGWAVE_PROTOCOL_MT_FASTEST => 11,
            ggwave_ProtocolId::GGWAVE_PROTOCOL_CUSTOM_0 => 12,
            ggwave_ProtocolId::GGWAVE_PROTOCOL_CUSTOM_1 => 13,
            ggwave_ProtocolId::GGWAVE_PROTOCOL_CUSTOM_2 => 14,
            ggwave_ProtocolId::GGWAVE_PROTOCOL_CUSTOM_3 => 15,
            ggwave_ProtocolId::GGWAVE_PROTOCOL_CUSTOM_4 => 16,
            ggwave_ProtocolId::GGWAVE_PROTOCOL_CUSTOM_5 => 17,
            ggwave_ProtocolId::GGWAVE_PROTOCOL_CUSTOM_6 => 18,
            ggwave_ProtocolId::GGWAVE_PROTOCOL_CUSTOM_7 => 19,
            ggwave_ProtocolId::GGWAVE_PROTOCOL_CUSTOM_8 => 20,
            ggwave_ProtocolId::GGWAVE_PROTOCOL_CUSTOM_9 => 21,
            ggwave_ProtocolId::GGWAVE_PROTOCOL_COUNT => 22,
        }
    }

    pub fn code(self) -> (c: i32)
        ensures
            c == self.spec_code(),
            0 <= c <= 22,
    {
        match self {
            ggwave_ProtocolId::GGWAVE_PROTOCOL_AUDIBLE_NORMAL => 0,
            ggwave_ProtocolId::GGWAVE_PROTOCOL_AUDIBLE_FAST => 1,
            ggwave_ProtocolId::GGWAVE_PROTOCOL_AUDIBLE_FASTEST => 2,
            ggwave_ProtocolId::GGWAVE_PROTOCOL_ULTRASOUND_NORMAL => 3,
            ggwave_ProtocolId::GGWAVE_PROTOCOL_ULTRASOUND_FAST => 4,
            ggwave_ProtocolId::GGWAVE_PROTOCOL_ULTRASOUND_FASTEST => 5,
            ggwave_ProtocolId::GGWAVE_PROTOCOL_DT_NORMAL => 6,
            ggwave_ProtocolId::GGWAVE_PROTOCOL_DT_FAST => 7,
            ggwave_ProtocolId::GGWAVE_PROTOCOL_DT_FASTEST => 8,
            ggwave_ProtocolId::GGWAVE_PROTOCOL_MT_NORMAL => 9,
            ggwave_ProtocolId::GGWAVE_PROTOCOL_MT_FAST => 10,
            ggwave_ProtocolId::GGWAVE_PROTOCOL_MT_FASTEST => 11,
            ggwave_ProtocolId::GGWAVE_PROTOCOL_CUSTOM_0 => 12,
            ggwave_ProtocolId::GGWAVE_PROTOCOL_CUSTOM_1 => 13,
            ggwave_ProtocolId::GGWAVE_PROTOCOL_CUSTOM_2 => 14,
            ggwave_ProtocolId::GGWAVE_PROTOCOL_CUSTOM_3 => 15,
            ggwave_ProtocolId::GGWAVE_PROTOCOL_CUSTOM_4 => 16,
            ggwave_ProtocolId::GGWAVE_PROTOCOL_CUSTOM_5 => 17,
            ggwave_ProtocolId::GGWAVE_PROTOCOL_CUSTOM_6 => 18,
            ggwave_ProtocolId::GGWAVE_PROTOCOL_CUSTOM_7 => 19,
            ggwave_ProtocolId::GGWAVE_PROTOCOL_CUSTOM_8 => 20,
            ggwave_ProtocolId::GGWAVE_PROTOCOL_CUSTOM_9 => 21,
            ggwave_ProtocolId::GGWAVE_PROTOCOL_COUNT => 22,
        }
    }

    /// The value that `code` stands for, if it stands for one.
    pub fn from_code(code: i32) -> (r: Option<ggwave_ProtocolId>)
        ensures
            r is Some <==> 0 <= code <= 22,
            r matches Some(v) ==> v.spec_code() == code,
    {
        match code {
            0 => Some(ggwave_ProtocolId::GGWAVE_PROTOCOL_AUDIBLE_NORMAL),
            1 => Some(ggwave_ProtocolId::GGWAVE_PROTOCOL_AUDIBLE_FAST),
            2 => Some(ggwave_ProtocolId::GGWAVE_PROTOCOL_AUDIBLE_FASTEST),
            3 => Some(ggwave_ProtocolId::GGWAVE_PROTOCOL_ULTRASOUND_NORMAL),
            4 => Some(ggwave_ProtocolId::GGWAVE_PROTOCOL_ULTRASOUND_FAST),
            5 => Some(ggwave_ProtocolId::GGWAVE_PROTOCOL_ULTRASOUND_FASTEST),
            6 => Some(ggwave_ProtocolId::GGWAVE_PROTOCOL_DT_NORMAL),
            7 => Some(ggwave_ProtocolId::GGWAVE_PROTOCOL_DT_FAST),
            8 => Some(ggwave_ProtocolId::GGWAVE_PROTOCOL_DT_FASTEST),
            9 => Some(ggwave_ProtocolId::GGWAVE_PROTOCOL_MT_NORMAL),
            10 => Some(ggwave_ProtocolId::GGWAVE_PROTOCOL_MT_FAST),
            11 => Some(ggwave_ProtocolId::GGWAVE_PROTOCOL_MT_FASTEST),
            12 => Some(ggwave_ProtocolId::GGWAVE_PROTOCOL_CUSTOM_0),
            13 => Some(ggwave_ProtocolId::GGWAVE_PROTOCOL_CUSTOM_1),
            14 => Some(ggwave_ProtocolId::GGWAVE_PROTOCOL_CUSTOM_2),
            15 => Some(ggwave_ProtocolId::GGWAVE_PROTOCOL_CUSTOM_3),
            16 => Some(ggwave_ProtocolId::GGWAVE_PROTOCOL_CUSTOM_4),
            17 => Some(ggwave_ProtocolId::GGWAVE_PROTOCOL_CUSTOM_5),
            18 => Some(ggwave_ProtocolId::GGWAVE_PROTOCOL_CUSTOM_6),
            19 => Some(ggwave_ProtocolId::GGWAVE_PROTOCOL_CUSTOM_7),
            20 => Some(ggwave_ProtocolId::GGWAVE_PROTOCOL_CUSTOM_8),
            21 => Some(ggwave_ProtocolId::GGWAVE_PROTOCOL_CUSTOM_9),
            22 => Some(ggwave_ProtocolId::GGWAVE_PROTOCOL_COUNT),
            _ => None,
        }
    }
}

/// Window or filter that the engine applies when it resamples.
#[derive(Debug, Copy, Clone, PartialEq, Eq, Structural)]
pub enum ggwave_Filter {
    GGWAVE_FILTER_HANN,
    GGWAVE_FILTER_HAMMING,
    GGWAVE_FILTER_FIRST_ORDER_HIGH_PASS,
}

impl ggwave_Filter {
    /// The integer that stands for this value at the engine boundary.
    pub open spec fn spec_code(self) -> int {
        match self {
            ggwave_Filter::GGWAVE_FILTER_HANN => 0,
            ggwave_Filter::GGWAVE_FILTER_HAMMING => 1,
            ggwave_Filter::GGWAVE_FILTER_FIRST_ORDER_HIGH_PASS => 2,
        }
    }

    pub fn code(self) -> (c: i32)
        ensures
            c == self.spec_code(),
            0 <= c <= 2,
    {
        match self {
            ggwave_Filter::GGWAVE_FILTER_HANN => 0,
            ggwave_Filter::GGWAVE_FILTER_HAMMING => 1,
            ggwave_Filter::GGWAVE_FILTER_FIRST_ORDER_HIGH_PASS => 2,
        }
    }

    /// The value that `code` stands for, if it stands for one.
    pub fn from_code(code: i32) -> (r: Option<ggwave_Filter>)
        ensures
            r is Some <==> 0 <= code <= 2,
            r matches Some(v) ==> v.spec_code() == code,
    {
        match code {
            0 => Some(ggwave_Filter::GGWAVE_FILTER_HANN),
            1 => Some(ggwave_Filter::GGWAVE_FILTER_HAMMING),
            2 => Some(ggwave_Filter::GGWAVE_FILTER_FIRST_ORDER_HIGH_PASS),
            _ => None,
        }
    }
}

/// The session receives.
pub const GGWAVE_OPERATING_MODE_RX: i32 = 2;

/// The session transmits.
pub const GGWAVE_OPERATING_MODE_TX: i32 = 4;

/// The session receives and transmits.
pub const GGWAVE_OPERATING_MODE_RX_AND_TX: i32 = 6;

/// Transmission yields tone descriptions in place of a waveform.
pub const GGWAVE_OPERATING_MODE_TX_ONLY_TONES: i32 = 8;

/// Direct-sequence spread is enabled.
pub const GGWAVE_OPERATING_MODE_USE_DSS: i32 = 16;

/// Configuration of one session.
///
/// The engine takes the three sample rates and the marker threshold as 32-bit
/// floats. Each of them is held here as the bit pattern of that float, so that
/// the record is carried to the engine without loss and compared exactly.
#[derive(Debug, Copy, Clone, PartialEq, Eq, Structural)]
pub struct ggwave_Parameters {
    /// Payload length hint; not positive for variable-length payloads.
    pub payloadLength: i32,
    /// Sample rate of captured audio in Hz, as float bits.
    pub sampleRateInp: u32,
    /// Sample rate of produced audio in Hz, as float bits.
    pub sampleRateOut: u32,
    /// Sample rate at which the engine works in Hz, as float bits.
    pub sampleRate: u32,
    /// Number of samples in one frame.
    pub samplesPerFrame: i32,
    /// Detection threshold of the start and end markers, as float bits.
    pub soundMarkerThreshold: u32,
    /// Format of the waveforms given to decode.
    pub sampleFormatInp: ggwave_SampleFormat,
    /// Format of the waveforms that encode returns.
    pub sampleFormatOut: ggwave_SampleFormat,
    /// Bitwise or of `GGWAVE_OPERATING_MODE_*` flags.
    pub operatingMode: i32,
}

impl ggwave_Parameters {
    /// This configuration with 32-bit float samples on both sides.
    pub open spec fn spec_with_float_samples(self) -> ggwave_Parameters {
        ggwave_Parameters {
            sampleFormatInp: ggwave_SampleFormat::GGWAVE_SAMPLE_FORMAT_F32,
            sampleFormatOut: ggwave_SampleFormat::GGWAVE_SAMPLE_FORMAT_F32,
            ..self
        }
    }

    /// This configuration with the given capture rate.
    pub open spec fn spec_with_input_rate(self, rate: u32) -> ggwave_Parameters {
        ggwave_Parameters { sampleRateInp: rate, ..self }
    }

    /// Sets both sample formats to 32-bit float and keeps every other field.
    pub fn with_float_samples(self) -> (p: ggwave_Parameters)
        ensures
            p == self.spec_with_float_samples(),
    {
        ggwave_Parameters {
            sampleFormatInp: ggwave_SampleFormat::GGWAVE_SAMPLE_FORMAT_F32,
            sampleFormatOut: ggwave_SampleFormat::GGWAVE_SAMPLE_FORMAT_F32,
            ..self
        }
    }

    /// Sets the capture rate, given as float bits, and keeps every other field.
    pub fn with_input_rate(self, rate: u32) -> (p: ggwave_Parameters)
        ensures
            p == self.spec_with_input_rate(rate),
    {
        ggwave_Parameters { sampleRateInp: rate, ..self }
    }
}

/// Two sample formats with the same code are the same format, and likewise for
/// protocol selectors and filters: the numbering loses nothing.
pub proof fn lemma_codes_injective(
    f: ggwave_SampleFormat,
    g: ggwave_SampleFormat,
    p: ggwave_ProtocolId,
    q: ggwave_ProtocolId,
    v: ggwave_Filter,
    w: ggwave_Filter,
)
    ensures
        f.spec_code() == g.spec_code() <==> f == g,
        p.spec_code() == q.spec_code() <==> p == q,
        v.spec_code() == w.spec_code() <==> v == w,
{
}

/// Receiving and transmitting together is the union of the two single flags,
/// and the four flags occupy bits one to four, one bit each.
pub proof fn lemma_operating_mode_flags()
    ensures
        GGWAVE_OPERATING_MODE_RX_AND_TX == GGWAVE_OPERATING_MODE_RX | GGWAVE_OPERATING_MODE_TX,
        GGWAVE_OPERATING_MODE_RX == 1i32 << 1,
        GGWAVE_OPERATING_MODE_TX == 1i32 << 2,
        GGWAVE_OPERATING_MODE_TX_ONLY_TONES == 1i32 << 3,
        GGWAVE_OPERATING_MODE_USE_DSS == 1i32 << 4,
{
    assert(6i32 == 2i32 | 4i32) by (bit_vector);
    assert(2i32 == 1i32 << 1) by (bit_vector);
    assert(4i32 == 1i32 << 2) by (bit_vector);
    assert(8i32 == 1i32 << 3) by (bit_vector);
    assert(16i32 == 1i32 << 4) by (bit_vector);
}

} // verus!
