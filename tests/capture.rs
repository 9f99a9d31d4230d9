use localtype::capture::{
    convert_u16_samples, sum_of_squares, CaptureControl, FrameProcessor, SampleFormat,
};
use localtype::resampler::AudioError;

#[test]
fn capture_start_stop_rules() {
    let mut c = CaptureControl::new();
    assert!(matches!(c.stop(), Err(AudioError::NotStarted)));
    assert!(matches!(c.start(false, SampleFormat::I16), Err(AudioError::NoInputDevice)));
    assert!(matches!(c.start(true, SampleFormat::Other), Err(AudioError::UnsupportedFormat(_))));
    assert!(!c.is_running());
    assert!(c.start(true, SampleFormat::F32).is_ok());
    assert!(matches!(c.start(true, SampleFormat::F32), Err(AudioError::AlreadyRunning)));
    assert!(c.take_chunks());
    assert!(!c.take_chunks());
    assert!(c.take_levels());
    assert!(!c.take_levels());
    assert!(c.stop().is_ok());
    assert!(!c.is_running());
}

#[test]
fn unsigned_samples_are_centred() {
    assert_eq!(convert_u16_samples(&[0, 32768, 65535]), vec![-32768, 0, 32767]);
}

#[test]
fn energy_of_samples() {
    assert_eq!(sum_of_squares(&[]), 0);
    assert_eq!(sum_of_squares(&[0, 0, 0]), 0);
    assert_eq!(sum_of_squares(&[3, -4]), 25);
    assert_eq!(sum_of_squares(&[i16::MIN]), 1073741824);
}

#[test]
fn frames_are_resampled_and_timestamped() {
    let mut p = FrameProcessor::new(48000, 2, 1000).unwrap();
    let chunk = p.process(&[100, 200, 300, 400, 500, 600], 1250).unwrap();
    assert_eq!(chunk.timestamp_ms, 250);
    assert_eq!(chunk.data, vec![150]);
    let early = p.process(&[1, 1], 10).unwrap();
    assert_eq!(early.timestamp_ms, 0);
    let mut zero = FrameProcessor::new(0, 1, 0).unwrap();
    assert!(zero.process(&[1, 2], 5).is_none());
    assert!(FrameProcessor::new(16000, 0, 0).is_err());
}
