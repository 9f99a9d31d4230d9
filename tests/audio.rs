use localtype::chunker::AudioChunker;
use localtype::resampler::{AudioError, AudioResampler};
use localtype::stt::AudioChunk;
use localtype::wav::encode_wav;

#[test]
fn zero_channels_rejected() {
    assert!(matches!(AudioResampler::new(48000, 16000, 0), Err(AudioError::UnsupportedFormat(_))));
}

#[test]
fn zero_input_rate_accepted_but_not_convertible() {
    let mut r = AudioResampler::new(0, 16000, 1).unwrap();
    assert_eq!(r.input_sample_rate(), 0);
    assert!(matches!(r.resample(&[1, 2]), Err(AudioError::ResamplingError(_))));
    assert_eq!(r.resample(&[]).unwrap(), Vec::<i16>::new());
    let mut same = AudioResampler::new(0, 0, 1).unwrap();
    assert_eq!(same.resample(&[4, 5]).unwrap(), vec![4, 5]);
}

#[test]
fn first_chunk_at_time_zero_sets_the_mark() {
    let mut c = AudioChunker::new(3000);
    c.add_chunk(&AudioChunk { data: vec![1], timestamp_ms: 0 });
    c.add_chunk(&AudioChunk { data: vec![2], timestamp_ms: 2000 });
    assert!(c.should_flush(3000));
    c.flush().unwrap();
    c.add_chunk(&AudioChunk { data: vec![3], timestamp_ms: 0 });
    assert!(!c.should_flush(2999));
    assert!(c.should_flush(3000));
}

#[test]
fn rates_are_reported() {
    let r = AudioResampler::new(44100, 16000, 2).unwrap();
    assert_eq!(r.input_sample_rate(), 44100);
    assert_eq!(r.output_sample_rate(), 16000);
}

#[test]
fn equal_rates_are_identity() {
    let mut r = AudioResampler::new(16000, 16000, 1).unwrap();
    let input = vec![5i16, -7, 32767, -32768, 0];
    assert_eq!(r.resample(&input).unwrap(), input);
}

#[test]
fn stereo_downmix_values() {
    let mut r = AudioResampler::new(16000, 16000, 2).unwrap();
    assert_eq!(r.resample(&[100, 200, 300, 400]).unwrap(), vec![150, 350]);
}

#[test]
fn downmix_truncates_toward_zero() {
    let r = AudioResampler::new(16000, 16000, 2).unwrap();
    assert_eq!(r.to_mono(&[-1, -2, 1, 2, i16::MIN, i16::MIN]), vec![-1, 1, i16::MIN]);
}

#[test]
fn upsampling_interpolates() {
    let mut r = AudioResampler::new(8000, 16000, 1).unwrap();
    // positions 0, 0.5, 1, 1.5: the last one has no right neighbour
    assert_eq!(r.resample(&[0, 100]).unwrap(), vec![0, 50, 100, 100]);
}

#[test]
fn interpolation_rounds_halves_away_from_zero() {
    let mut r = AudioResampler::new(8000, 16000, 1).unwrap();
    assert_eq!(r.resample(&[0, 1, 0, -1]).unwrap(), vec![0, 1, 1, 1, 0, -1, -1, -1]);
}

#[test]
fn downsampling_length_is_ceiling() {
    let mut r = AudioResampler::new(48000, 16000, 1).unwrap();
    assert_eq!(r.resample(&vec![7i16; 10]).unwrap().len(), 4);
    assert_eq!(r.resample(&vec![7i16; 4800]).unwrap().len(), 1600);
}

#[test]
fn wav_encoding_exact_bytes() {
    let bytes = encode_wav(&[100, 200, -100, -200, 0], 16000);
    assert_eq!(
        bytes,
        vec![
            82, 73, 70, 70, 46, 0, 0, 0, 87, 65, 86, 69, 102, 109, 116, 32, 16, 0, 0, 0, 1, 0, 1, 0,
            128, 62, 0, 0, 0, 125, 0, 0, 2, 0, 16, 0, 100, 97, 116, 97, 10, 0, 0, 0, 100, 0, 200, 0,
            156, 255, 56, 255, 0, 0
        ]
    );
}

#[test]
fn empty_chunker_never_flushes() {
    let c = AudioChunker::new(3000);
    assert!(!c.should_flush(0));
    assert!(!c.should_flush(u64::MAX));
}

#[test]
fn flush_clears_and_resets_mark() {
    let mut c = AudioChunker::new(1000);
    c.add_chunk(&AudioChunk { data: vec![1, 2, 3], timestamp_ms: 500 });
    assert!(!c.should_flush(1499));
    assert!(c.should_flush(1500));
    let wav = c.flush().unwrap();
    assert_eq!(&wav[0..4], b"RIFF");
    assert_eq!(&wav[8..12], b"WAVE");
    assert_eq!(wav.len(), 50);
    assert_eq!(c.buffer_size(), 0);
    // the next chunk sets a fresh mark
    c.add_chunk(&AudioChunk { data: vec![4], timestamp_ms: 9000 });
    assert!(!c.should_flush(9999));
    assert!(c.should_flush(10000));
}

#[test]
fn timestamp_before_mark_counts_as_no_time() {
    let mut c = AudioChunker::new(0);
    c.add_chunk(&AudioChunk { data: vec![1], timestamp_ms: 500 });
    assert!(c.should_flush(100));
    let mut d = AudioChunker::new(1);
    d.add_chunk(&AudioChunk { data: vec![1], timestamp_ms: 500 });
    assert!(!d.should_flush(100));
}
