//! The numbering of the values that cross the engine boundary.

use ggwave_rs::ffi::{ggwave_Filter, ggwave_Parameters, ggwave_ProtocolId, ggwave_SampleFormat};
use ggwave_rs::ffi::GGWAVE_MAX_INSTANCES;
use ggwave_rs::{
    Parameters, ProtocolId, SampleFormat, GGWAVE_OPERATING_MODE_RX,
    GGWAVE_OPERATING_MODE_RX_AND_TX, GGWAVE_OPERATING_MODE_TX,
    GGWAVE_OPERATING_MODE_TX_ONLY_TONES, GGWAVE_OPERATING_MODE_USE_DSS, MAX_DATA_SIZE,
};

fn parameters() -> Parameters {
    ggwave_Parameters {
        payloadLength: -1,
        sampleRateInp: 48000.0f32.to_bits(),
        sampleRateOut: 48000.0f32.to_bits(),
        sampleRate: 48000.0f32.to_bits(),
        samplesPerFrame: 1024,
        soundMarkerThreshold: 3.0f32.to_bits(),
        sampleFormatInp: SampleFormat::GGWAVE_SAMPLE_FORMAT_I16,
        sampleFormatOut: SampleFormat::GGWAVE_SAMPLE_FORMAT_U8,
        operatingMode: GGWAVE_OPERATING_MODE_RX_AND_TX,
    }
}

#[test]
fn sample_format_codes() {
    assert_eq!(ggwave_SampleFormat::GGWAVE_SAMPLE_FORMAT_UNDEFINED.code(), 0);
    assert_eq!(ggwave_SampleFormat::GGWAVE_SAMPLE_FORMAT_U8.code(), 1);
    assert_eq!(ggwave_SampleFormat::GGWAVE_SAMPLE_FORMAT_I8.code(), 2);
    assert_eq!(ggwave_SampleFormat::GGWAVE_SAMPLE_FORMAT_U16.code(), 3);
    assert_eq!(ggwave_SampleFormat::GGWAVE_SAMPLE_FORMAT_I16.code(), 4);
    assert_eq!(ggwave_SampleFormat::GGWAVE_SAMPLE_FORMAT_F32.code(), 5);
    assert_eq!(ggwave_SampleFormat::from_code(6), None);
    assert_eq!(ggwave_SampleFormat::from_code(-1), None);
    for code in 0..=5 {
        assert_eq!(ggwave_SampleFormat::from_code(code).map(|f| f.code()), Some(code));
        assert_eq!(ggwave_SampleFormat::from_code(code).map(|f| f as i32), Some(code));
    }
}

#[test]
fn protocol_codes() {
    assert_eq!(ProtocolId::GGWAVE_PROTOCOL_AUDIBLE_NORMAL.code(), 0);
    assert_eq!(ProtocolId::GGWAVE_PROTOCOL_AUDIBLE_FAST.code(), 1);
    assert_eq!(ProtocolId::GGWAVE_PROTOCOL_AUDIBLE_FASTEST.code(), 2);
    assert_eq!(ProtocolId::GGWAVE_PROTOCOL_ULTRASOUND_NORMAL.code(), 3);
    assert_eq!(ProtocolId::GGWAVE_PROTOCOL_ULTRASOUND_FAST.code(), 4);
    assert_eq!(ProtocolId::GGWAVE_PROTOCOL_ULTRASOUND_FASTEST.code(), 5);
    assert_eq!(ProtocolId::GGWAVE_PROTOCOL_DT_NORMAL.code(), 6);
    assert_eq!(ProtocolId::GGWAVE_PROTOCOL_DT_FAST.code(), 7);
    assert_eq!(ProtocolId::GGWAVE_PROTOCOL_DT_FASTEST.code(), 8);
    assert_eq!(ProtocolId::GGWAVE_PROTOCOL_MT_NORMAL.code(), 9);
    assert_eq!(ProtocolId::GGWAVE_PROTOCOL_MT_FAST.code(), 10);
    assert_eq!(ProtocolId::GGWAVE_PROTOCOL_MT_FASTEST.code(), 11);
    assert_eq!(ProtocolId::GGWAVE_PROTOCOL_CUSTOM_0.code(), 12);
    assert_eq!(ProtocolId::GGWAVE_PROTOCOL_CUSTOM_9.code(), 21);
    assert_eq!(ProtocolId::GGWAVE_PROTOCOL_COUNT.code(), 22);
    assert_eq!(ggwave_ProtocolId::from_code(23), None);
    assert_eq!(ggwave_ProtocolId::from_code(-1), None);
    assert_eq!(ggwave_ProtocolId::from_code(i32::MIN), None);
    for code in 0..=22 {
        assert_eq!(ggwave_ProtocolId::from_code(code).map(|p| p.code()), Some(code));
        assert_eq!(ggwave_ProtocolId::from_code(code).map(|p| p as i32), Some(code));
    }
    assert_eq!(
        ggwave_ProtocolId::from_code(17),
        Some(ProtocolId::GGWAVE_PROTOCOL_CUSTOM_5)
    );
}

#[test]
fn filter_codes() {
    assert_eq!(ggwave_Filter::GGWAVE_FILTER_HANN.code(), 0);
    assert_eq!(ggwave_Filter::GGWAVE_FILTER_HAMMING.code(), 1);
    assert_eq!(ggwave_Filter::GGWAVE_FILTER_FIRST_ORDER_HIGH_PASS.code(), 2);
    assert_eq!(ggwave_Filter::from_code(3), None);
    assert_eq!(ggwave_Filter::from_code(-1), None);
    for code in 0..=2 {
        assert_eq!(ggwave_Filter::from_code(code).map(|f| f.code()), Some(code));
    }
}

#[test]
fn operating_mode_flags() {
    assert_eq!(GGWAVE_OPERATING_MODE_RX, 1 << 1);
    assert_eq!(GGWAVE_OPERATING_MODE_TX, 1 << 2);
    assert_eq!(GGWAVE_OPERATING_MODE_TX_ONLY_TONES, 1 << 3);
    assert_eq!(GGWAVE_OPERATING_MODE_USE_DSS, 1 << 4);
    assert_eq!(
        GGWAVE_OPERATING_MODE_RX_AND_TX,
        GGWAVE_OPERATING_MODE_RX | GGWAVE_OPERATING_MODE_TX
    );
    assert_eq!(GGWAVE_OPERATING_MODE_RX_AND_TX, 6);
}

#[test]
fn fixed_limits() {
    assert_eq!(MAX_DATA_SIZE, 256);
    assert_eq!(GGWAVE_MAX_INSTANCES, 4);
}

#[test]
fn float_samples_on_both_sides() {
    let before = parameters();
    let after = before.with_float_samples();
    assert_eq!(after.sampleFormatInp, SampleFormat::GGWAVE_SAMPLE_FORMAT_F32);
    assert_eq!(after.sampleFormatOut, SampleFormat::GGWAVE_SAMPLE_FORMAT_F32);
    assert_eq!(
        after,
        ggwave_Parameters {
            sampleFormatInp: SampleFormat::GGWAVE_SAMPLE_FORMAT_F32,
            sampleFormatOut: SampleFormat::GGWAVE_SAMPLE_FORMAT_F32,
            ..before
        }
    );
}

#[test]
fn input_rate_is_replaced_alone() {
    let before = parameters();
    let after = before.with_input_rate(44100.0f32.to_bits());
    assert_eq!(f32::from_bits(after.sampleRateInp), 44100.0);
    assert_eq!(f32::from_bits(after.sampleRateOut), 48000.0);
    assert_eq!(after, ggwave_Parameters { sampleRateInp: 0x472c4400, ..before });
}
