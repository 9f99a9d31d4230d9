use localtype::chunker::AudioChunker;
use localtype::stt::AudioChunk;

#[test]
fn test_chunker_creation() {
    let chunker = AudioChunker::new(3000);
    assert_eq!(chunker.buffer_size(), 0);
    assert_eq!(chunker.chunk_duration_ms(), 3000);
}

#[test]
fn test_add_chunk() {
    let mut chunker = AudioChunker::new(3000);

    let chunk = AudioChunk {
        data: vec![1, 2, 3, 4, 5],
        timestamp_ms: 100,
    };

    chunker.add_chunk(&chunk);
    assert_eq!(chunker.buffer_size(), 5);
}

#[test]
fn test_should_flush() {
    let mut chunker = AudioChunker::new(3000);

    // Empty buffer should not flush
    assert!(!chunker.should_flush(5000));

    // Add chunk at timestamp 1000
    let chunk = AudioChunk {
        data: vec![1, 2, 3],
        timestamp_ms: 1000,
    };
    chunker.add_chunk(&chunk);

    // At timestamp 3000 (2000ms elapsed), should not flush yet
    assert!(!chunker.should_flush(3000));

    // At timestamp 4000 (3000ms elapsed), should flush
    assert!(chunker.should_flush(4000));

    // At timestamp 5000 (4000ms elapsed), should flush
    assert!(chunker.should_flush(5000));
}

#[test]
fn test_flush_wav_encoding() {
    let mut chunker = AudioChunker::new(3000);

    // Add some sample data
    let chunk = AudioChunk {
        data: vec![100, 200, -100, -200, 0],
        timestamp_ms: 1000,
    };
    chunker.add_chunk(&chunk);

    // Flush and get WAV bytes
    let wav_bytes = chunker.flush().expect("Failed to flush");

    // Should have WAV header + data
    assert!(wav_bytes.len() > 44); // WAV header is 44 bytes

    // Check RIFF header
    assert_eq!(&wav_bytes[0..4], b"RIFF");
    assert_eq!(&wav_bytes[8..12], b"WAVE");

    // Buffer should be cleared after flush
    assert_eq!(chunker.buffer_size(), 0);
}

#[test]
fn test_flush_empty_buffer() {
    let mut chunker = AudioChunker::new(3000);

    let wav_bytes = chunker.flush().expect("Failed to flush");
    assert!(wav_bytes.is_empty());
}
