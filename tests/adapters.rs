use localtype::icon::create_recording_icon;
use localtype::config::{LlmProcessorType, OutputMode, SpeechModelStatus, SttProviderType};
use localtype::llm::{AppleLlmProcessor, CliExecutor, CopilotProcessor, GeminiProcessor};
use localtype::output::{CombinedOutput, KeyboardOutput};

#[test]
fn defaults() {
    assert_eq!(SttProviderType::default(), SttProviderType::ElevenLabs);
    assert_eq!(LlmProcessorType::default(), LlmProcessorType::Gemini);
    assert_eq!(OutputMode::default(), OutputMode::Clipboard);
}

#[test]
fn model_status_codes() {
    assert_eq!(SpeechModelStatus::from(0), SpeechModelStatus::Installed);
    assert_eq!(SpeechModelStatus::from(1), SpeechModelStatus::NotInstalled);
    assert_eq!(SpeechModelStatus::from(2), SpeechModelStatus::Downloading);
    assert_eq!(SpeechModelStatus::from(3), SpeechModelStatus::Unavailable);
    assert_eq!(SpeechModelStatus::from(-4), SpeechModelStatus::Unavailable);
}

#[test]
fn copilot_model_choice() {
    assert_eq!(CopilotProcessor::new().model(), Some("gpt-5-mini"));
    assert_eq!(CopilotProcessor::with_model(Some(String::new())).model(), Some("gpt-5-mini"));
    assert_eq!(CopilotProcessor::with_model(None).model(), Some("gpt-5-mini"));
    assert_eq!(CopilotProcessor::with_model(Some("o3".to_string())).model(), Some("o3"));
    assert_eq!(CopilotProcessor::with_timeout(5).executor().timeout_secs(), 5);
}

#[test]
fn timeouts() {
    assert_eq!(CliExecutor::new().timeout_secs(), 30);
    assert_eq!(CliExecutor::with_timeout(7).timeout_secs(), 7);
    assert_eq!(GeminiProcessor::new().executor().timeout_secs(), 30);
    assert_eq!(GeminiProcessor::with_timeout(9).executor().timeout_secs(), 9);
    assert_eq!(AppleLlmProcessor::with_model(Some("x".to_string())).prompt_manager().prompts_dir(), "prompts");
}

#[test]
fn combined_output_sinks() {
    let c = CombinedOutput::new(OutputMode::Clipboard).unwrap();
    assert!(c.has_clipboard_sink() && !c.has_keyboard_sink());
    let k = CombinedOutput::new(OutputMode::Keyboard).unwrap();
    assert!(!k.has_clipboard_sink() && k.has_keyboard_sink());
    let b = CombinedOutput::new(OutputMode::Both).unwrap();
    assert!(b.has_clipboard_sink() && b.has_keyboard_sink());
    assert_eq!(b.mode(), OutputMode::Both);
    assert!(KeyboardOutput::new().is_ok());
}

#[test]
fn recording_icon_is_tinted() {
    let px = [10u8, 50, 30, 255, 250, 20, 60, 0, 200, 100, 100, 1, 7, 7];
    assert_eq!(
        create_recording_icon(&px, 3, 1),
        vec![90, 10, 0, 255, 250, 20, 60, 0, 255, 60, 60, 1, 7, 7]
    );
}
