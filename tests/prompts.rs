use localtype::commands::ProcessingTask;
use localtype::prompts::{render_prompt, template_name, PromptManager};

/// A template holding every placeholder, standing in for the files on disk.
const TEMPLATE: &str = "terms: {dictionary_terms}\ninput: {raw_text}{text}{context}\ntone: {tone}\nlanguage: {language}";

fn build(manager: &PromptManager, task: &ProcessingTask) -> Result<String, ()> {
    Ok(manager.build_prompt(task, TEMPLATE))
}

#[test]
fn test_prompt_manager_creation() {
    let manager = PromptManager::new();
    assert!(manager.prompts_dir().ends_with("prompts"));
}

#[test]
fn test_build_post_process_prompt() {
    let manager = PromptManager::new();
    let task = ProcessingTask::PostProcess {
        text: "um so like hello".to_string(),
        dictionary_terms: vec!["API".to_string(), "STT".to_string()],
    };

    let result = build(&manager, &task);
    if let Ok(prompt) = result {
        assert!(prompt.contains("um so like hello"));
        assert!(prompt.contains("API, STT"));
    }
}

#[test]
fn test_build_shorten_prompt() {
    let manager = PromptManager::new();
    let task = ProcessingTask::Shorten {
        text: "This is a long text".to_string(),
    };

    let result = build(&manager, &task);
    if let Ok(prompt) = result {
        assert!(prompt.contains("This is a long text"));
    }
}

#[test]
fn test_build_translate_prompt() {
    let manager = PromptManager::new();
    let task = ProcessingTask::Translate {
        text: "Hello world".to_string(),
        target_language: "Chinese".to_string(),
    };

    let result = build(&manager, &task);
    if let Ok(prompt) = result {
        assert!(prompt.contains("Hello world"));
        assert!(prompt.contains("Chinese"));
    }
}

#[test]
fn test_build_change_tone_prompt() {
    let manager = PromptManager::new();
    let task = ProcessingTask::ChangeTone {
        text: "hey there".to_string(),
        target_tone: "formal".to_string(),
    };

    let result = build(&manager, &task);
    if let Ok(prompt) = result {
        assert!(prompt.contains("hey there"));
        assert!(prompt.contains("formal"));
    }
}

#[test]
fn test_build_generate_reply_prompt() {
    let manager = PromptManager::new();
    let task = ProcessingTask::GenerateReply {
        context: "Can you attend the meeting?".to_string(),
    };

    let result = build(&manager, &task);
    if let Ok(prompt) = result {
        assert!(prompt.contains("Can you attend the meeting?"));
    }
}

#[test]
fn render_post_process_fills_both_placeholders() {
    let task = ProcessingTask::PostProcess {
        text: "um so like hello".to_string(),
        dictionary_terms: vec!["API".to_string(), "STT".to_string()],
    };
    let out = render_prompt(&task, "Terms: {dictionary_terms}\nText: {raw_text}\n{raw_text}");
    assert_eq!(out, "Terms: API, STT\nText: um so like hello\num so like hello");
}

#[test]
fn render_post_process_without_terms() {
    let task = ProcessingTask::PostProcess { text: "x".to_string(), dictionary_terms: vec![] };
    assert_eq!(render_prompt(&task, "[{dictionary_terms}]"), "[No custom terms defined.]");
}

#[test]
fn render_tone_and_translation() {
    let tone = ProcessingTask::ChangeTone { text: "hey".to_string(), target_tone: "formal".to_string() };
    assert_eq!(render_prompt(&tone, "{text} as {tone}"), "hey as formal");
    let tr = ProcessingTask::Translate { text: "hi".to_string(), target_language: "German".to_string() };
    assert_eq!(render_prompt(&tr, "{language}: {text}"), "German: hi");
    let reply = ProcessingTask::GenerateReply { context: "ping".to_string() };
    assert_eq!(render_prompt(&reply, "<{context}>"), "<ping>");
}

#[test]
fn template_paths_per_task() {
    let m = PromptManager::with_dir("/etc/p");
    let t = ProcessingTask::Shorten { text: String::new() };
    assert_eq!(template_name(&t), "shorten.md");
    assert_eq!(m.template_path(&t), "/etc/p/shorten.md");
}
