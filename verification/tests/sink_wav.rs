use voice_assistant::audio::{AudioConfig, NativeFormat};
use voice_assistant::error::AssistantError;
use voice_assistant::sink::{begin_capture, SampleSink};

fn open_sink(rate: u32, channels: u16) -> SampleSink {
    let cfg = AudioConfig {
        sample_rate: rate,
        channels,
        sample_format: NativeFormat::Int16,
    };
    begin_capture(Some(cfg)).expect("capture should start")
}

#[test]
fn header_bytes_exact() {
    let mut sink = open_sink(8000, 1);
    sink.write(&vec![1, -2]);
    let bytes = sink.finalize().expect("first finalize yields the container");
    let expected: Vec<u8> = vec![
        0x52, 0x49, 0x46, 0x46, // "RIFF"
        0x28, 0x00, 0x00, 0x00, // chunk size 40 = 36 + 4
        0x57, 0x41, 0x56, 0x45, // "WAVE"
        0x66, 0x6d, 0x74, 0x20, // "fmt "
        0x10, 0x00, 0x00, 0x00, // format chunk length 16
        0x01, 0x00, // PCM
        0x01, 0x00, // 1 channel
        0x40, 0x1f, 0x00, 0x00, // 8000 Hz
        0x80, 0x3e, 0x00, 0x00, // byte rate 16000
        0x02, 0x00, // block align
        0x10, 0x00, // 16 bits per sample
        0x64, 0x61, 0x74, 0x61, // "data"
        0x04, 0x00, 0x00, 0x00, // data length 4
        0x01, 0x00, // sample 1
        0xfe, 0xff, // sample -2
    ];
    assert_eq!(bytes, expected);
}

#[test]
fn container_round_trips_through_reader() {
    let mut sink = open_sink(44100, 2);
    let samples: Vec<i16> = vec![0, 1, -1, 32767, -32768, 100, -100, 5];
    sink.write(&samples);
    let bytes = sink.finalize().expect("first finalize yields the container");
    let reader =
        hound::WavReader::new(std::io::Cursor::new(bytes)).expect("container must parse");
    let spec = reader.spec();
    assert_eq!(spec.channels, 2);
    assert_eq!(spec.sample_rate, 44100);
    assert_eq!(spec.bits_per_sample, 16);
    assert_eq!(spec.sample_format, hound::SampleFormat::Int);
    let read: Vec<i16> = reader
        .into_samples::<i16>()
        .map(|s| s.expect("sample must parse"))
        .collect();
    assert_eq!(read, samples);
}

#[test]
fn finalize_is_idempotent() {
    let mut sink = open_sink(16000, 1);
    sink.write(&vec![7, 8, 9]);
    let first = sink.finalize();
    assert!(first.is_some());
    assert_eq!(first.unwrap().len(), 44 + 6);
    // a second finalize observes "already finalized" and returns successfully
    // with nothing: the container header is never written twice
    assert!(sink.finalize().is_none());
    assert!(sink.finalize().is_none());
}

#[test]
fn write_after_finalize_is_noop() {
    let mut sink = open_sink(16000, 1);
    sink.write(&vec![1]);
    let bytes = sink.finalize().expect("first finalize yields the container");
    assert_eq!(bytes.len(), 44 + 2);
    // the driver may keep delivering samples briefly after stop: discarded
    sink.write(&vec![2, 3, 4]);
    sink.write(&vec![]);
    assert!(sink.finalize().is_none());
}

#[test]
fn missing_device_fails_before_any_sink_exists() {
    let r = begin_capture(None);
    assert!(matches!(r, Err(AssistantError::DeviceError)));
}

#[test]
fn unsupported_format_rejected_up_front() {
    let cfg = AudioConfig {
        sample_rate: 48000,
        channels: 1,
        sample_format: NativeFormat::Other,
    };
    let r = begin_capture(Some(cfg));
    assert!(matches!(r, Err(AssistantError::UnsupportedFormat)));
}

#[test]
fn degenerate_device_config_rejected() {
    let cfg = AudioConfig {
        sample_rate: 0,
        channels: 1,
        sample_format: NativeFormat::Int16,
    };
    assert!(matches!(begin_capture(Some(cfg)), Err(AssistantError::DeviceError)));
    let cfg = AudioConfig {
        sample_rate: 44100,
        channels: 0,
        sample_format: NativeFormat::Float32,
    };
    assert!(matches!(begin_capture(Some(cfg)), Err(AssistantError::DeviceError)));
}

#[test]
fn float_native_capture_end_to_end() {
    // scaled float-native samples are canonicalized inside the sink
    let scaled: Vec<i64> = vec![0, 16383, -16384, 99999, -99999];
    let mut sink = open_sink(22050, 1);
    sink.write_scaled(&scaled);
    let bytes = sink.finalize().expect("first finalize yields the container");
    let reader =
        hound::WavReader::new(std::io::Cursor::new(bytes)).expect("container must parse");
    let read: Vec<i16> = reader
        .into_samples::<i16>()
        .map(|s| s.expect("sample must parse"))
        .collect();
    assert_eq!(read, vec![0, 16383, -16384, 32767, -32768]);
}
