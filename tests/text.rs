use localtype::commands::{detect_command, detect_command_lowered, ProcessingTask};
use localtype::text::{contains, find_char, join, replace_all, starts_with, trim};

#[test]
fn trim_removes_unicode_white_space() {
    assert_eq!(trim("\u{3000}\t hi there \n\u{a0}"), "hi there");
    assert_eq!(trim("   "), "");
    assert_eq!(trim(""), "");
}

#[test]
fn contains_finds_runs() {
    assert!(contains("hello world", "o w"));
    assert!(contains("abc", ""));
    assert!(!contains("abc", "abcd"));
    assert!(!contains("abc", "ac"));
}

#[test]
fn starts_with_and_find() {
    assert!(starts_with("translate to x", "translate to "));
    assert!(!starts_with("trans", "translate"));
    assert_eq!(find_char("ab:c:d", ':'), Some(2));
    assert_eq!(find_char("abc", ':'), None);
}

#[test]
fn replace_and_join() {
    assert_eq!(replace_all("aaa", "aa", "b"), "ba");
    assert_eq!(replace_all("x{t}y{t}", "{t}", "-"), "x-y-");
    assert_eq!(replace_all("abc", "", "-"), "-a-b-c-");
    assert_eq!(replace_all("", "", "-"), "-");
    assert_eq!(join(&vec!["a".to_string(), "b".to_string(), "c".to_string()], ", "), "a, b, c");
    assert_eq!(join(&vec![], ", "), "");
}

#[test]
fn detection_on_lowered_text() {
    let d = detect_command_lowered("SHORTEN: Keep It", "shorten: keep it", vec![]);
    assert_eq!(d.task, ProcessingTask::Shorten { text: "Keep It".to_string() });
    assert_eq!(d.command_name, Some("shorten".to_string()));
    let none = detect_command_lowered("SHORTEN: Keep It", "other", vec!["t".to_string()]);
    assert_eq!(none.command_name, None);
}

#[test]
fn translate_without_colon_is_plain_text() {
    let d = detect_command("translate to French hello", vec![]);
    assert!(matches!(d.task, ProcessingTask::PostProcess { .. }));
    assert_eq!(d.content, "translate to French hello");
}

#[test]
fn casualize_prefix() {
    let d = detect_command("Casualize:   see you  ", vec![]);
    assert_eq!(d.content, "see you");
    assert_eq!(d.command_name, Some("casualize".to_string()));
    assert_eq!(
        d.task,
        ProcessingTask::ChangeTone { text: "see you".to_string(), target_tone: "casual".to_string() }
    );
}
