use localtype::backends::{
    native_result_event, resolve_locale_with, AppleSttProvider, ContextArena, CustomSttProvider,
    ElevenLabsProvider, GroqProvider, ProviderSession,
};
use localtype::stt::TranscriptionEvent;

#[test]
fn test_custom_provider_creation() {
    let provider = CustomSttProvider::new("http://localhost:8080/v1".to_string(), None, None, None);
    assert_eq!(provider.model(), "whisper-1");
    assert!(provider.api_key().is_none());
    assert!(provider.language().is_none());
}

#[test]
fn test_custom_provider_with_options() {
    let provider = CustomSttProvider::new(
        "http://localhost:8080/v1".to_string(),
        Some("my-key".to_string()),
        Some("large-v3".to_string()),
        Some("en".to_string()),
    );
    assert_eq!(provider.model(), "large-v3");
    assert_eq!(provider.api_key(), Some("my-key"));
    assert_eq!(provider.language(), Some("en"));
}

#[test]
fn test_empty_strings_become_none() {
    let provider = CustomSttProvider::new(
        "http://localhost:8080/v1".to_string(),
        Some("".to_string()),
        Some("".to_string()),
        Some("".to_string()),
    );
    assert_eq!(provider.model(), "whisper-1");
    assert!(provider.api_key().is_none());
    assert!(provider.language().is_none());
}

#[test]
fn test_groq_provider_creation() {
    let provider = GroqProvider::new("test-api-key".to_string());
    assert_eq!(provider.model(), "whisper-large-v3-turbo");
}

#[test]
fn custom_url_drops_trailing_slashes() {
    let p = CustomSttProvider::new("http://h:1/v1//".to_string(), None, None, None);
    assert_eq!(p.transcription_url(), "http://h:1/v1/audio/transcriptions");
}

#[test]
fn streaming_url_names_model_and_language() {
    let p = ElevenLabsProvider::with_config("k".to_string(), "m1".to_string(), "de".to_string());
    assert_eq!(
        p.ws_url_text(),
        "wss://api.elevenlabs.io/v1/speech-to-text/ws?model_id=m1&language_code=de"
    );
    let url = p.build_ws_url().unwrap();
    assert_eq!(url.scheme(), "wss");
    let d = ElevenLabsProvider::new("k".to_string());
    assert_eq!(d.reconnect_config().max_retries, 10);
}

#[test]
fn session_guard_rules() {
    let mut s = ProviderSession::new();
    assert!(s.check_send().is_err());
    assert!(s.start().is_ok());
    assert!(s.start().is_err());
    assert!(s.check_send().is_ok());
    assert!(s.take_events());
    assert!(!s.take_events());
    s.stop();
    s.stop();
    assert!(s.check_send().is_err());
    assert!(s.start().is_ok());
    assert!(s.take_events());
}

#[test]
fn locale_resolution() {
    assert_eq!(resolve_locale_with("fr_FR", Some("de-DE".to_string())), "fr_FR");
    assert_eq!(resolve_locale_with("auto", Some("de-DE".to_string())), "de_DE");
    assert_eq!(resolve_locale_with("auto", None), "en_US");
    let p = AppleSttProvider::new("ja_JP".to_string());
    assert_eq!(p.resolve_locale(), "ja_JP");
}

#[test]
fn native_results_map_to_events() {
    assert_eq!(
        native_result_event("hi".to_string(), 5, false),
        TranscriptionEvent::Partial { text: "hi".to_string(), timestamp_ms: 5 }
    );
    assert_eq!(
        native_result_event("hi".to_string(), 6, true),
        TranscriptionEvent::Committed { text: "hi".to_string(), timestamp_ms: 6 }
    );
}

#[test]
fn contexts_are_reclaimed_once() {
    let mut arena: ContextArena<String> = ContextArena::new();
    let a = arena.register("a".to_string());
    let b = arena.register("b".to_string());
    assert!(arena.is_live(a) && arena.is_live(b));
    assert_eq!(arena.reclaim(a), Some("a".to_string()));
    assert_eq!(arena.reclaim(a), None);
    assert!(!arena.is_live(a));
    assert!(arena.is_live(b));
    assert_eq!(arena.reclaim(99), None);
}
