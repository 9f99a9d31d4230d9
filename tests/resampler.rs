use localtype::resampler::AudioResampler;

#[test]
fn test_resampler_creation() {
    let resampler = AudioResampler::new(48000, 16000, 1);
    assert!(resampler.is_ok());
}

#[test]
fn test_resample_mono() {
    let mut resampler = AudioResampler::new(48000, 16000, 1).unwrap();
    let input = vec![1000i16; 4800]; // 100ms at 48kHz
    let output = resampler.resample(&input).unwrap();

    // Should be roughly 1/3 the size (48kHz -> 16kHz)
    assert!(output.len() > 1500 && output.len() < 1700);
}

#[test]
fn test_resample_stereo_to_mono() {
    let mut resampler = AudioResampler::new(48000, 16000, 2).unwrap();
    let input = vec![1000i16; 9600]; // 100ms stereo at 48kHz
    let output = resampler.resample(&input).unwrap();

    // Output should be mono and roughly 1/3 the size per channel
    assert!(output.len() > 1500 && output.len() < 1700);
}

#[test]
fn test_no_resample_needed() {
    let mut resampler = AudioResampler::new(16000, 16000, 1).unwrap();
    let input = vec![1000i16; 1600]; // 100ms at 16kHz
    let output = resampler.resample(&input).unwrap();

    // Should be same size (no resampling)
    assert_eq!(output.len(), input.len());
}

#[test]
fn test_to_mono_stereo() {
    let resampler = AudioResampler::new(16000, 16000, 2).unwrap();
    let input = vec![100i16, 200i16, 300i16, 400i16]; // 2 stereo frames
    let mono = resampler.to_mono(&input);

    assert_eq!(mono.len(), 2);
    assert_eq!(mono[0], 150); // avg of 100 and 200
    assert_eq!(mono[1], 350); // avg of 300 and 400
}

#[test]
fn test_empty_input() {
    let mut resampler = AudioResampler::new(48000, 16000, 1).unwrap();
    let input = vec![];
    let output = resampler.resample(&input).unwrap();
    assert!(output.is_empty());
}

#[test]
fn test_single_sample() {
    let mut resampler = AudioResampler::new(16000, 16000, 1).unwrap();
    let input = vec![100i16];
    let output = resampler.resample(&input).unwrap();
    assert_eq!(output.len(), 1);
}

#[test]
fn test_to_mono_edge_cases() {
    let resampler = AudioResampler::new(16000, 16000, 2).unwrap();

    // Empty input
    let empty: Vec<i16> = vec![];
    let mono = resampler.to_mono(&empty);
    assert_eq!(mono.len(), 0);

    // Odd number of samples (incomplete frame) - should handle gracefully
    let odd_input = vec![100i16, 200i16, 300i16];
    let mono = resampler.to_mono(&odd_input);
    assert_eq!(mono.len(), 1); // Only complete frames
}

#[test]
fn test_extreme_values() {
    let mut resampler = AudioResampler::new(16000, 16000, 1).unwrap();

    // Test with max and min i16 values
    let input = vec![i16::MAX, i16::MIN, 0i16];
    let output = resampler.resample(&input).unwrap();
    assert_eq!(output.len(), 3);
}

#[test]
fn test_high_sample_rate_conversion() {
    // Test 96kHz to 16kHz (6:1 ratio)
    let mut resampler = AudioResampler::new(96000, 16000, 1).unwrap();
    let input = vec![1000i16; 9600]; // 100ms at 96kHz
    let output = resampler.resample(&input).unwrap();

    // Should be roughly 1/6 the size
    assert!(output.len() > 1500 && output.len() < 1700);
}
