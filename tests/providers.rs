use localtype::providers::{
    audio_message, backoff_delay, response_to_event, BatchSession, ReconnectConfig, StreamResponse,
};
use localtype::stt::{AudioChunk, TranscriptionEvent};

#[test]
fn backoff_sequence_with_defaults() {
    let cfg = ReconnectConfig::default();
    let delays: Vec<u64> = (0..10).map(|r| cfg.next_delay(r).unwrap()).collect();
    assert_eq!(
        delays,
        vec![1000, 2000, 4000, 8000, 16000, 30000, 30000, 30000, 30000, 30000]
    );
}

#[test]
fn backoff_gives_up_after_max_retries() {
    let cfg = ReconnectConfig::default();
    assert_eq!(cfg.next_delay(10), None);
    assert_eq!(cfg.next_delay(11), None);
}

#[test]
fn no_retry_once_reconnection_is_off() {
    let cfg = ReconnectConfig::default();
    assert_eq!(cfg.next_attempt(0, false), None);
    assert_eq!(cfg.next_attempt(2, true), Some(4000));
    assert_eq!(cfg.next_attempt(10, true), None);
}

#[test]
fn batch_session_marks_first_chunk_at_zero() {
    let mut s = BatchSession::new(3000);
    assert!(s.push_audio(&chunk(vec![1], 0)).is_none());
    assert!(s.push_audio(&chunk(vec![2], 3000)).is_some());
}

#[test]
fn backoff_never_overflows() {
    assert_eq!(backoff_delay(1000, 30000, 4_000_000_000), 30000);
    assert_eq!(backoff_delay(u64::MAX, 5, 0), 5);
    assert_eq!(backoff_delay(3, u64::MAX, 2), 12);
}

#[test]
fn partial_response_becomes_partial_event() {
    let ev = response_to_event(StreamResponse::PartialTranscript {
        text: "hel".to_string(),
        timestamp: Some(40),
    });
    assert_eq!(ev, Some(TranscriptionEvent::Partial { text: "hel".to_string(), timestamp_ms: 40 }));
}

#[test]
fn final_response_without_timestamp_uses_zero() {
    let ev = response_to_event(StreamResponse::FinalTranscript {
        text: "hello".to_string(),
        timestamp: None,
    });
    assert_eq!(ev, Some(TranscriptionEvent::Committed { text: "hello".to_string(), timestamp_ms: 0 }));
}

#[test]
fn empty_transcripts_are_dropped() {
    assert_eq!(
        response_to_event(StreamResponse::PartialTranscript { text: String::new(), timestamp: Some(1) }),
        None
    );
    assert_eq!(
        response_to_event(StreamResponse::FinalTranscript { text: String::new(), timestamp: None }),
        None
    );
}

#[test]
fn error_response_becomes_error_event() {
    let ev = response_to_event(StreamResponse::Error { message: "quota".to_string() });
    assert_eq!(ev, Some(TranscriptionEvent::Error { message: "quota".to_string() }));
}

#[test]
fn audio_message_wraps_base64_wav() {
    let msg = audio_message(&[0i16]);
    // 46 bytes of WAV become 64 base64 characters.
    assert!(msg.starts_with("{\"type\":\"audio\",\"audio_base64\":\"UklGR"));
    assert!(msg.ends_with("\"}"));
    let inner = &msg["{\"type\":\"audio\",\"audio_base64\":\"".len()..msg.len() - 2];
    assert_eq!(inner.len(), 64);
    assert_eq!(inner, "UklGRiYAAABXQVZFZm10IBAAAAABAAEAgD4AAAB9AAACABAAZGF0YQIAAAAAAA==");
}

fn chunk(data: Vec<i16>, ts: u64) -> AudioChunk {
    AudioChunk { data, timestamp_ms: ts }
}

#[test]
fn batch_session_uploads_when_due() {
    let mut s = BatchSession::new(3000);
    assert!(s.push_audio(&chunk(vec![1, 2], 1000)).is_none());
    assert!(s.push_audio(&chunk(vec![3], 2500)).is_none());
    let wav = s.push_audio(&chunk(vec![4], 4000)).expect("due");
    assert_eq!(&wav[0..4], b"RIFF");
    assert_eq!(wav.len(), 44 + 8);
    assert!(s.finish_audio().is_none());
}

#[test]
fn batch_session_accumulates_partials_and_commits_once() {
    let mut s = BatchSession::new(3000);
    s.push_audio(&chunk(vec![1], 100));
    let e1 = s.on_upload(Ok("hello".to_string()));
    assert_eq!(e1, Some(TranscriptionEvent::Partial { text: "hello".to_string(), timestamp_ms: 100 }));
    let e2 = s.on_upload(Err("503".to_string()));
    assert_eq!(e2, Some(TranscriptionEvent::Error { message: "503".to_string() }));
    let e3 = s.on_upload(Ok("   ".to_string()));
    assert_eq!(e3, None);
    let e4 = s.on_upload(Ok("world".to_string()));
    assert_eq!(
        e4,
        Some(TranscriptionEvent::Partial { text: "hello world".to_string(), timestamp_ms: 100 })
    );
    let last = s.finish(Some(Ok("again".to_string())));
    assert_eq!(
        last,
        Some(TranscriptionEvent::Committed { text: "hello world again".to_string(), timestamp_ms: 100 })
    );
}

#[test]
fn batch_session_final_flush_of_leftover_audio() {
    let mut s = BatchSession::new(3000);
    s.push_audio(&chunk(vec![7, 8, 9], 10));
    let wav = s.finish_audio().expect("leftover audio");
    assert_eq!(wav.len(), 44 + 6);
    assert!(s.finish_audio().is_none());
}

#[test]
fn batch_session_blank_transcript_commits_nothing() {
    let mut s = BatchSession::new(3000);
    assert_eq!(s.finish(None), None);
    let mut t = BatchSession::new(3000);
    assert_eq!(t.finish(Some(Err("x".to_string()))), None);
}
