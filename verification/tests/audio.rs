//! The audio-file boundary and the command surface.

use ggwave_rs::command::{decode_report, Protocol, DEFAULT_PROTOCOL, DEFAULT_VOLUME};
use ggwave_rs::wav::{
    pack_samples, unpack_samples, SampleEncoding, WavError, WavFormat, WavSampleFormat,
    BYTES_PER_SAMPLE,
};
use ggwave_rs::ProtocolId;

fn header(channels: u16, sample_format: WavSampleFormat, bits_per_sample: u16) -> WavFormat {
    WavFormat { channels, sample_rate: 48000, bits_per_sample, sample_format }
}

#[test]
fn mono_float_and_integer_files_are_taken() {
    assert_eq!(header(1, WavSampleFormat::Float, 32).input_encoding(), Ok(SampleEncoding::F32));
    assert_eq!(header(1, WavSampleFormat::Int, 16).input_encoding(), Ok(SampleEncoding::I16));
    assert_eq!(header(1, WavSampleFormat::Int, 32).input_encoding(), Ok(SampleEncoding::I32));
}

#[test]
fn files_that_are_not_mono_are_refused_first() {
    assert_eq!(header(2, WavSampleFormat::Float, 32).input_encoding(), Err(WavError::NotMono(2)));
    assert_eq!(header(0, WavSampleFormat::Int, 16).input_encoding(), Err(WavError::NotMono(0)));
    assert_eq!(header(6, WavSampleFormat::Int, 8).input_encoding(), Err(WavError::NotMono(6)));
}

#[test]
fn other_sample_widths_are_refused() {
    for bits in [0u16, 8, 24, 64] {
        assert_eq!(
            header(1, WavSampleFormat::Int, bits).input_encoding(),
            Err(WavError::UnsupportedFormat(WavSampleFormat::Int, bits))
        );
    }
    for bits in [8u16, 16, 24, 64] {
        assert_eq!(
            header(1, WavSampleFormat::Float, bits).input_encoding(),
            Err(WavError::UnsupportedFormat(WavSampleFormat::Float, bits))
        );
    }
}

#[test]
fn encoded_files_are_mono_float() {
    assert_eq!(
        WavFormat::output(48000),
        WavFormat {
            channels: 1,
            sample_rate: 48000,
            bits_per_sample: 32,
            sample_format: WavSampleFormat::Float,
        }
    );
    assert_eq!(WavFormat::output(44100).input_encoding(), Ok(SampleEncoding::F32));
}

#[test]
fn integer_samples_have_a_full_scale() {
    assert_eq!(SampleEncoding::F32.full_scale(), None);
    assert_eq!(SampleEncoding::I16.full_scale(), Some(i16::MAX as i32));
    assert_eq!(SampleEncoding::I32.full_scale(), Some(i32::MAX));
}

#[test]
fn sixteen_bit_samples_normalize_to_unit_range() {
    let scale = SampleEncoding::I16.full_scale().expect("a scale") as f32;
    let normalized: Vec<f32> = [-32768i16, 0, 32767].iter().map(|s| *s as f32 / scale).collect();
    assert!((normalized[0] - -1.0).abs() < 1e-4);
    assert_eq!(normalized[1], 0.0);
    assert!((normalized[2] - 1.0).abs() < 1e-6);

    let bits: Vec<u32> = normalized.iter().map(|s| s.to_bits()).collect();
    let bytes = pack_samples(&bits);
    assert_eq!(bytes.len(), 3 * BYTES_PER_SAMPLE);
    assert_eq!(&bytes[4..8], &[0u8, 0, 0, 0]);
    assert_eq!(&bytes[8..12], &1.0f32.to_le_bytes());
    let back: Vec<f32> = unpack_samples(&bytes).into_iter().map(f32::from_bits).collect();
    assert_eq!(back, normalized);
}

#[test]
fn samples_are_packed_little_endian() {
    assert_eq!(pack_samples(&[]), Vec::<u8>::new());
    assert_eq!(pack_samples(&[0x3f800000]), vec![0x00, 0x00, 0x80, 0x3f]);
    assert_eq!(
        pack_samples(&[0x01020304, 0xfffefdfc, 0]),
        vec![0x04, 0x03, 0x02, 0x01, 0xfc, 0xfd, 0xfe, 0xff, 0, 0, 0, 0]
    );
    for sample in [0.0f32, -1.0, 0.5, 1.0e-7, f32::MAX, f32::MIN_POSITIVE] {
        assert_eq!(pack_samples(&[sample.to_bits()]), sample.to_le_bytes().to_vec());
    }
}

#[test]
fn samples_are_unpacked_in_whole_groups() {
    assert_eq!(unpack_samples(&[]), Vec::<u32>::new());
    assert_eq!(unpack_samples(&[1, 2, 3]), Vec::<u32>::new());
    assert_eq!(unpack_samples(&[0x00, 0x00, 0x80, 0x3f]), vec![0x3f800000]);
    assert_eq!(
        unpack_samples(&[0x04, 0x03, 0x02, 0x01, 0xfc, 0xfd, 0xfe, 0xff, 9, 9, 9]),
        vec![0x01020304, 0xfffefdfc]
    );
    assert_eq!(f32::from_bits(unpack_samples(&0.25f32.to_le_bytes())[0]), 0.25);
}

#[test]
fn packing_and_unpacking_undo_each_other() {
    let samples: Vec<u32> = (0..1000u32).map(|i| i.wrapping_mul(2654435761)).collect();
    assert_eq!(unpack_samples(&pack_samples(&samples)), samples);
    let bytes: Vec<u8> = (0..1003u32).map(|i| (i * 7) as u8).collect();
    assert_eq!(pack_samples(&unpack_samples(&bytes)), bytes[..1000].to_vec());
}

#[test]
fn chosen_protocols_map_to_selectors() {
    assert_eq!(ProtocolId::from(Protocol::AudibleNormal), ProtocolId::GGWAVE_PROTOCOL_AUDIBLE_NORMAL);
    assert_eq!(ProtocolId::from(Protocol::AudibleFast), ProtocolId::GGWAVE_PROTOCOL_AUDIBLE_FAST);
    assert_eq!(ProtocolId::from(Protocol::AudibleFastest), ProtocolId::GGWAVE_PROTOCOL_AUDIBLE_FASTEST);
    assert_eq!(ProtocolId::from(Protocol::UltrasoundNormal), ProtocolId::GGWAVE_PROTOCOL_ULTRASOUND_NORMAL);
    assert_eq!(ProtocolId::from(Protocol::UltrasoundFast), ProtocolId::GGWAVE_PROTOCOL_ULTRASOUND_FAST);
    assert_eq!(ProtocolId::from(Protocol::UltrasoundFastest), ProtocolId::GGWAVE_PROTOCOL_ULTRASOUND_FASTEST);
    assert_eq!(ProtocolId::from(Protocol::DtNormal), ProtocolId::GGWAVE_PROTOCOL_DT_NORMAL);
    assert_eq!(ProtocolId::from(Protocol::DtFast), ProtocolId::GGWAVE_PROTOCOL_DT_FAST);
    assert_eq!(ProtocolId::from(Protocol::DtFastest), ProtocolId::GGWAVE_PROTOCOL_DT_FASTEST);
    assert_eq!(ProtocolId::from(Protocol::MtNormal), ProtocolId::GGWAVE_PROTOCOL_MT_NORMAL);
    assert_eq!(ProtocolId::from(Protocol::MtFast), ProtocolId::GGWAVE_PROTOCOL_MT_FAST);
    assert_eq!(ProtocolId::from(Protocol::MtFastest), ProtocolId::GGWAVE_PROTOCOL_MT_FASTEST);
    let id: ProtocolId = Protocol::DtFast.into();
    assert_eq!(id.code(), 7);
}

#[test]
fn command_defaults() {
    assert_eq!(DEFAULT_VOLUME, 25);
    assert_eq!(DEFAULT_PROTOCOL, Protocol::AudibleFast);
}

#[test]
fn decoded_text_is_reported() {
    assert_eq!(decode_report(Some(b"hello")), "hello");
    assert_eq!(decode_report(Some(b"")), "");
    assert_eq!(decode_report(Some("gr\u{fc}\u{df}e".as_bytes())), "gr\u{fc}\u{df}e");
    assert_eq!(decode_report(Some(b"a\xffb")), "a\u{fffd}b");
}

#[test]
fn missing_payload_is_reported_as_such() {
    assert_eq!(decode_report(None), "No payload decoded.");
}
