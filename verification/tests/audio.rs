use sumi::audio::{
    buffer_is_silent, decode_frames, decode_sample, device_configured, device_name_matches, silent_format,
    stream_format, RawSample, SampleBuffer, AUDCLNT_BUFFERFLAGS_SILENT, WAVE_FORMAT_EXTENSIBLE,
    WAVE_FORMAT_IEEE_FLOAT,
};

#[test]
fn buffer_keeps_only_the_latest_capacity_samples() {
    let mut b: SampleBuffer<f32> = SampleBuffer::new(4);
    b.push_many(&[1.0, 2.0, 3.0]);
    b.push_many(&[4.0, 5.0, 6.0]);
    let mut out = [9.0f32; 4];
    b.read_latest(&mut out, 0.0);
    assert_eq!(out, [3.0, 4.0, 5.0, 6.0]);
}

#[test]
fn read_shorter_than_held_gives_most_recent() {
    let mut b: SampleBuffer<f32> = SampleBuffer::new(8);
    b.push_many(&[1.0, 2.0, 3.0, 4.0, 5.0]);
    let mut out = [0.0f32; 2];
    b.read_latest(&mut out, 0.0);
    assert_eq!(out, [4.0, 5.0]);
}

#[test]
fn read_longer_than_held_pads_front_with_silence() {
    let mut b: SampleBuffer<f32> = SampleBuffer::new(8);
    b.push_many(&[0.5, -0.5]);
    let mut out = [7.0f32; 5];
    b.read_latest(&mut out, 0.0);
    assert_eq!(out, [0.0, 0.0, 0.0, 0.5, -0.5]);
}

#[test]
fn empty_buffer_reads_silence() {
    let b: SampleBuffer<f32> = SampleBuffer::new(16);
    let mut out = [1.0f32; 3];
    b.read_latest(&mut out, 0.0);
    assert_eq!(out, [0.0, 0.0, 0.0]);
}

#[test]
fn zero_capacity_buffer_holds_nothing() {
    let mut b: SampleBuffer<i32> = SampleBuffer::new(0);
    b.push_many(&[1, 2, 3]);
    let mut out = [5i32; 2];
    b.read_latest(&mut out, -1);
    assert_eq!(out, [-1, -1]);
}

#[test]
fn read_after_big_write_returns_written_tail() {
    let mut b: SampleBuffer<u32> = SampleBuffer::new(1 << 10);
    b.push_many(&[100, 200]);
    let written: Vec<u32> = (0..5000).collect();
    b.push_many(&written);
    let mut out = vec![0u32; 1024];
    b.read_latest(&mut out, 0);
    assert_eq!(out, written[5000 - 1024..].to_vec());
}

#[test]
fn mix_format_float_detection() {
    let f = stream_format(WAVE_FORMAT_IEEE_FLOAT, 48000, 2, 32);
    assert!(f.is_float);
    assert_eq!((f.sample_rate, f.channels, f.bits_per_sample), (48000, 2, 32));
    assert!(stream_format(WAVE_FORMAT_EXTENSIBLE, 48000, 2, 32).is_float);
    assert!(!stream_format(WAVE_FORMAT_EXTENSIBLE, 48000, 2, 24).is_float);
    assert!(!stream_format(0x0001, 44100, 1, 16).is_float);
    assert!(!stream_format(0x0001, 44100, 1, 32).is_float);
}

#[test]
fn silent_format_is_stereo_float() {
    let f = silent_format();
    assert_eq!((f.sample_rate, f.channels, f.bits_per_sample, f.is_float), (44100, 2, 32, true));
}

#[test]
fn silent_packets() {
    assert_eq!(AUDCLNT_BUFFERFLAGS_SILENT, 2);
    assert!(buffer_is_silent(2, false));
    assert!(buffer_is_silent(3, false));
    assert!(buffer_is_silent(0, true));
    assert!(!buffer_is_silent(0, false));
    assert!(!buffer_is_silent(1 | 4, false));
}

#[test]
fn decode_little_endian_samples() {
    let bits = 0.25f32.to_le_bytes();
    assert_eq!(decode_sample(&bits, true), RawSample::Float(0.25f32.to_bits()));
    assert_eq!(decode_sample(&[0x34, 0x12], false), RawSample::Int16(0x1234));
    assert_eq!(decode_sample(&[0xFF, 0xFF], false), RawSample::Int16(-1));
    assert_eq!(decode_sample(&[0x00, 0x80], true), RawSample::Int16(i16::MIN));
    assert_eq!(decode_sample(&[0x78, 0x56, 0x34, 0x12], false), RawSample::Int32(0x1234_5678));
    assert_eq!(decode_sample(&[0, 0, 0, 0x80], false), RawSample::Int32(i32::MIN));
    assert_eq!(decode_sample(&[1, 2, 3], false), RawSample::Unsupported);
    assert_eq!(decode_sample(&[1, 2, 3], true), RawSample::Unsupported);
    assert_eq!(decode_sample(&[], false), RawSample::Unsupported);
}

#[test]
fn decode_frames_splits_channels_and_drops_partial_frame() {
    // two frames of two 16-bit channels, plus three stray bytes
    let raw = [0x01, 0x00, 0xFF, 0xFF, 0x00, 0x80, 0x02, 0x00, 9, 9, 9];
    let frames = decode_frames(&raw, 4, 2, 2, false);
    assert_eq!(frames.len(), 2);
    assert_eq!(frames[0], vec![RawSample::Int16(1), RawSample::Int16(-1)]);
    assert_eq!(frames[1], vec![RawSample::Int16(i16::MIN), RawSample::Int16(2)]);
}

#[test]
fn decode_frames_with_padding_in_block() {
    // one float channel in an 8-byte block
    let mut raw = Vec::new();
    raw.extend_from_slice(&1.5f32.to_le_bytes());
    raw.extend_from_slice(&[0, 0, 0, 0]);
    raw.extend_from_slice(&(-2.0f32).to_le_bytes());
    raw.extend_from_slice(&[0, 0, 0, 0]);
    let frames = decode_frames(&raw, 8, 1, 4, true);
    assert_eq!(frames.len(), 2);
    assert_eq!(frames[0], vec![RawSample::Float(1.5f32.to_bits())]);
    assert_eq!(frames[1], vec![RawSample::Float((-2.0f32).to_bits())]);
}

#[test]
fn device_names_match_ignoring_ascii_case() {
    assert!(device_name_matches("Mix 3/4 (MiniFuse 2)", "mix 3/4"));
    assert!(device_name_matches("Mix 3/4 (MiniFuse 2)", "MINIFUSE"));
    assert!(device_name_matches("Microphone", ""));
    assert!(!device_name_matches("Microphone", "Mix"));
    assert!(!device_name_matches("Mix", "Mix 3/4"));
    assert!(device_name_matches("Ärger MIX", "Ärger mix"));
    assert!(!device_name_matches("ÄRGER", "ärger"));
}

#[test]
fn split_writes_equal_one_write() {
    let data: Vec<i32> = (0..20).collect();
    for split in 0..=20 {
        let mut a: SampleBuffer<i32> = SampleBuffer::new(7);
        a.push_many(&[-1, -2]);
        a.push_many(&data[..split]);
        a.push_many(&data[split..]);
        let mut b: SampleBuffer<i32> = SampleBuffer::new(7);
        b.push_many(&[-1, -2]);
        b.push_many(&data);
        let mut out_a = [0i32; 9];
        let mut out_b = [0i32; 9];
        a.read_latest(&mut out_a, 99);
        b.read_latest(&mut out_b, 99);
        assert_eq!(out_a, out_b);
        assert_eq!(out_a, [99, 99, 13, 14, 15, 16, 17, 18, 19]);
    }
}

#[test]
fn blank_device_names_are_not_configured() {
    assert!(!device_configured(""));
    assert!(!device_configured("   "));
    assert!(!device_configured(" \t\r\n\u{3000}\u{a0}\u{2009}"));
    assert!(device_configured(" Mix 3/4 "));
    assert!(device_configured("\u{200b}"));
    for s in ["", " ", "x", "\u{85}", " a ", "\u{1680}\u{2028}", "\u{feff}"] {
        assert_eq!(device_configured(s), !s.trim().is_empty());
    }
}
