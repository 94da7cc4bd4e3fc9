use camera_box::vban::{
    sample_rate_to_index, VbanCodec, VbanError, VbanHeader, VbanProtocol, SAMPLE_RATES,
    VBAN_HEADER_SIZE, VBAN_MAGIC, VBAN_PORT, VBAN_STREAM_NAME_SIZE,
};

#[test]
fn test_header_encode_decode() {
    let header = VbanHeader::new("test", 48000, 2, VbanCodec::Pcm16).unwrap();
    let encoded = header.encode(256);
    let decoded = VbanHeader::decode(&encoded).unwrap();

    assert_eq!(decoded.sample_rate(), 48000);
    assert_eq!(decoded.num_channels(), 2);
    assert_eq!(decoded.stream_name_str(), "test");
}

#[test]
fn test_sample_rate_index() {
    assert_eq!(sample_rate_to_index(48000), Some(3));
    assert_eq!(sample_rate_to_index(44100), Some(16));
    assert_eq!(sample_rate_to_index(12345), None);
}

#[test]
fn test_codec_bytes_per_sample_all_variants() {
    assert_eq!(VbanCodec::Pcm8.bytes_per_sample(), 1);
    assert_eq!(VbanCodec::Pcm16.bytes_per_sample(), 2);
    assert_eq!(VbanCodec::Pcm24.bytes_per_sample(), 3);
    assert_eq!(VbanCodec::Pcm32.bytes_per_sample(), 4);
    assert_eq!(VbanCodec::Float32.bytes_per_sample(), 4);
    assert_eq!(VbanCodec::Float64.bytes_per_sample(), 8);
}

#[test]
fn test_header_new_invalid_sample_rate() {
    let result = VbanHeader::new("test", 12345, 2, VbanCodec::Pcm16);
    assert!(result.is_err());
    assert!(result
        .unwrap_err()
        .message()
        .contains("Unsupported sample rate"));
}

#[test]
fn test_header_decode_too_short() {
    let short_data = [0u8; 20];
    let result = VbanHeader::decode(&short_data);
    assert!(result.is_err());
    assert!(result.unwrap_err().message().contains("too short"));
}

#[test]
fn test_header_decode_invalid_magic() {
    let mut data = [0u8; VBAN_HEADER_SIZE];
    data[0..4].copy_from_slice(b"XXXX");
    let result = VbanHeader::decode(&data);
    assert!(result.is_err());
    assert!(result
        .unwrap_err()
        .message()
        .contains("Invalid VBAN magic"));
}

#[test]
fn test_header_decode_non_audio_protocol() {
    let mut data = [0u8; VBAN_HEADER_SIZE];
    data[0..4].copy_from_slice(&VBAN_MAGIC);
    data[4] = 0x20;
    let result = VbanHeader::decode(&data);
    assert!(result.is_err());
    assert!(result
        .unwrap_err()
        .message()
        .contains("Not a VBAN audio packet"));
}

#[test]
fn test_stream_name_truncation() {
    let long_name = "this_is_a_very_long_stream_name";
    let header = VbanHeader::new(long_name, 48000, 2, VbanCodec::Pcm16).unwrap();
    let name = header.stream_name_str();
    assert_eq!(name.len(), 15);
    assert_eq!(name, "this_is_a_very_");
}

#[test]
fn test_stream_name_exactly_max_length() {
    let exact_name = "exactly15chars!";
    let header = VbanHeader::new(exact_name, 48000, 2, VbanCodec::Pcm16).unwrap();
    assert_eq!(header.stream_name_str(), exact_name);
}

#[test]
fn test_sample_rate_index_all_rates() {
    let expected_rates = [
        (6000, 0),
        (12000, 1),
        (24000, 2),
        (48000, 3),
        (96000, 4),
        (192000, 5),
        (384000, 6),
        (8000, 7),
        (16000, 8),
        (32000, 9),
        (64000, 10),
        (128000, 11),
        (256000, 12),
        (512000, 13),
        (11025, 14),
        (22050, 15),
        (44100, 16),
        (88200, 17),
        (176400, 18),
        (352800, 19),
    ];
    for (rate, expected_index) in expected_rates {
        assert_eq!(
            sample_rate_to_index(rate),
            Some(expected_index),
            "Failed for rate {}",
            rate
        );
    }
}

#[test]
fn test_header_encode_decode_roundtrip_all_sample_rates() {
    for &rate in SAMPLE_RATES.iter() {
        let header = VbanHeader::new("test", rate, 2, VbanCodec::Pcm16).unwrap();
        let encoded = header.encode(128);
        let decoded = VbanHeader::decode(&encoded).unwrap();
        assert_eq!(
            decoded.sample_rate(),
            rate,
            "Round-trip failed for rate {}",
            rate
        );
    }
}

#[test]
fn test_header_channels() {
    for channels in 1..=8 {
        let header = VbanHeader::new("test", 48000, channels, VbanCodec::Pcm16).unwrap();
        let encoded = header.encode(256);
        let decoded = VbanHeader::decode(&encoded).unwrap();
        assert_eq!(
            decoded.num_channels(),
            channels,
            "Failed for {} channels",
            channels
        );
    }
}

#[test]
fn test_header_samples_per_frame() {
    let header = VbanHeader::new("test", 48000, 2, VbanCodec::Pcm16).unwrap();
    for samples in [1, 64, 128, 256] {
        let encoded = header.encode(samples);
        let decoded = VbanHeader::decode(&encoded).unwrap();
        assert_eq!(
            decoded.num_samples(),
            samples,
            "Failed for {} samples",
            samples
        );
    }
}

#[test]
fn test_header_frame_counter() {
    let mut header = VbanHeader::new("test", 48000, 2, VbanCodec::Pcm16).unwrap();
    header.frame_counter = 0x12345678;
    let encoded = header.encode(256);
    let decoded = VbanHeader::decode(&encoded).unwrap();
    assert_eq!(decoded.frame_counter, 0x12345678);
}

#[test]
fn test_protocol_enum_values() {
    assert_eq!(VbanProtocol::Audio.as_u8(), 0x00);
    assert_eq!(VbanProtocol::Serial.as_u8(), 0x20);
    assert_eq!(VbanProtocol::Text.as_u8(), 0x40);
    assert_eq!(VbanProtocol::Service.as_u8(), 0x60);
}

#[test]
fn test_constants() {
    assert_eq!(VBAN_PORT, 6980);
    assert_eq!(VBAN_HEADER_SIZE, 28);
    assert_eq!(VBAN_STREAM_NAME_SIZE, 16);
    assert_eq!(&VBAN_MAGIC, b"VBAN");
}

#[test]
fn scenario_cam1_header_round_trip() {
    let header = VbanHeader::new("cam1", 48000, 2, VbanCodec::Pcm16).unwrap();
    let encoded = header.encode(256);
    assert_eq!(encoded.len(), 28);
    let decoded = VbanHeader::decode(&encoded).unwrap();
    assert_eq!(decoded.sample_rate(), 48000);
    assert_eq!(decoded.num_channels(), 2);
    assert_eq!(decoded.stream_name_str(), "cam1");
    assert_eq!(decoded.num_samples(), 256);
    assert_eq!(decoded.codec, VbanCodec::Pcm16.as_u8());
}

#[test]
fn encode_writes_the_documented_layout() {
    let mut header = VbanHeader::new("ab", 44100, 1, VbanCodec::Float32).unwrap();
    header.frame_counter = 0x0403_0201;
    let b = header.encode(128);
    assert_eq!(&b[0..4], b"VBAN");
    assert_eq!(b[4], 16);
    assert_eq!(b[5], 127);
    assert_eq!(b[6], 0);
    assert_eq!(b[7], 4);
    assert_eq!(&b[8..10], b"ab");
    assert!(b[10..24].iter().all(|&x| x == 0));
    assert_eq!(&b[24..28], &[1, 2, 3, 4]);
}

#[test]
fn round_trip_keeps_every_field() {
    for &rate in SAMPLE_RATES.iter() {
        for channels in [1u8, 2, 8, 255] {
            for counter in [0u32, 1, 0xffff_ffff] {
                let mut h = VbanHeader::new("x15chars_stream", rate, channels, VbanCodec::Pcm24)
                    .unwrap();
                h.frame_counter = counter;
                let d = VbanHeader::decode(&h.encode(64)).unwrap();
                assert_eq!(d.sample_rate(), rate);
                assert_eq!(d.num_channels(), channels);
                assert_eq!(d.stream_name_str(), "x15chars_stream");
                assert_eq!(d.frame_counter, counter);
            }
        }
    }
}

#[test]
fn decode_rejects_each_malformed_kind() {
    assert_eq!(VbanHeader::decode(&[]).unwrap_err(), VbanError::TooShort);
    assert_eq!(VbanHeader::decode(&[0u8; 27]).unwrap_err(), VbanError::TooShort);
    let mut data = [0u8; 28];
    data[0..4].copy_from_slice(b"VBAM");
    assert_eq!(VbanHeader::decode(&data).unwrap_err(), VbanError::InvalidMagic);
    data[0..4].copy_from_slice(b"VBAN");
    for tag in [0x20u8, 0x40, 0x60, 0xe0] {
        data[4] = tag | 3;
        assert_eq!(VbanHeader::decode(&data).unwrap_err(), VbanError::NotAudio);
    }
    data[4] = 3;
    assert!(VbanHeader::decode(&data).is_ok());
}

#[test]
fn stream_name_stops_at_nul_and_rejects_bad_utf8() {
    let mut h = VbanHeader::new("abc", 48000, 2, VbanCodec::Pcm16).unwrap();
    h.stream_name[1] = 0;
    assert_eq!(h.stream_name_str(), "a");
    h.stream_name[0] = 0xff;
    assert_eq!(h.stream_name_str(), "");
}

#[test]
fn channels_zero_and_rate_fallback() {
    let h = VbanHeader::new("t", 48000, 0, VbanCodec::Pcm16).unwrap();
    assert_eq!(h.channels, 0);
    assert_eq!(h.num_channels(), 1);
    let mut h2 = h;
    h2.sample_rate_index = 25;
    assert_eq!(h2.sample_rate(), 48000);
    h2.channels = 255;
    assert_eq!(h2.num_channels(), 255);
}
