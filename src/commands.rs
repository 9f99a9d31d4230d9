use crate::text::{
    drop_n, find_char, first_index_of, lower_of, lowercase, starts_with, starts_with_spec, tail_from,
    trim, trim_spec,
};
use vstd::prelude::*;
use vstd::string::*;

verus! {

/// What the language-model stage is asked to do with a transcript.
#[derive(Debug, Clone, PartialEq)]
pub enum ProcessingTask {
    /// Clean up filler words, grammar and formatting, honouring custom terms.
    PostProcess { text: String, dictionary_terms: Vec<String> },
    Shorten { text: String },
    ChangeTone { text: String, target_tone: String },
    GenerateReply { context: String },
    Translate { text: String, target_language: String },
}

/// A task with its texts as character sequences.
pub enum TaskView {
    PostProcess { text: Seq<char>, dictionary_terms: Seq<Seq<char>> },
    Shorten { text: Seq<char> },
    ChangeTone { text: Seq<char>, target_tone: Seq<char> },
    GenerateReply { context: Seq<char> },
    Translate { text: Seq<char>, target_language: Seq<char> },
}

pub open spec fn strings_view(v: Seq<String>) -> Seq<Seq<char>> {
    v.map_values(|s: String| s@)
}

impl View for ProcessingTask {
    type V = TaskView;

    open spec fn view(&self) -> TaskView {
        match self {
            ProcessingTask::PostProcess { text, dictionary_terms } => TaskView::PostProcess {
                text: text@,
                dictionary_terms: strings_view(dictionary_terms@),
            },
            ProcessingTask::Shorten { text } => TaskView::Shorten { text: text@ },
            ProcessingTask::ChangeTone { text, target_tone } => TaskView::ChangeTone {
                text: text@,
                target_tone: target_tone@,
            },
            ProcessingTask::GenerateReply { context } => TaskView::GenerateReply { context: context@ },
            ProcessingTask::Translate { text, target_language } => TaskView::Translate {
                text: text@,
                target_language: target_language@,
            },
        }
    }
}

/// The outcome of looking for a voice command at the start of a transcript.
#[derive(Debug, Clone, PartialEq)]
pub struct CommandDetection {
    /// The task to hand to the language model.
    pub task: ProcessingTask,
    /// The transcript without the command prefix.
    pub content: String,
    /// The name of the detected command, if any.
    pub command_name: Option<String>,
}

pub struct DetectionView {
    pub task: TaskView,
    pub content: Seq<char>,
    pub command_name: Option<Seq<char>>,
}

impl View for CommandDetection {
    type V = DetectionView;

    open spec fn view(&self) -> DetectionView {
        DetectionView {
            task: self.task@,
            content: self.content@,
            command_name: match self.command_name {
                Some(n) => Some(n@),
                None => None,
            },
        }
    }
}

pub const SHORTEN_THIS: &'static str = "shorten this:";
pub const SHORTEN: &'static str = "shorten:";
pub const MAKE_FORMAL: &'static str = "make it formal:";
pub const FORMALIZE: &'static str = "formalize:";
pub const MAKE_CASUAL: &'static str = "make it casual:";
pub const CASUALIZE: &'static str = "casualize:";
pub const REPLY_TO: &'static str = "reply to:";
pub const GENERATE_REPLY: &'static str = "generate reply:";
pub const TRANSLATE_TO: &'static str = "translate to ";

pub const NAME_SHORTEN: &'static str = "shorten";
pub const NAME_FORMALIZE: &'static str = "formalize";
pub const NAME_CASUALIZE: &'static str = "casualize";
pub const NAME_REPLY: &'static str = "reply";
pub const TONE_FORMAL: &'static str = "formal";
pub const TONE_CASUAL: &'static str = "casual";

/// The transcript after a command prefix of `n` characters, trimmed.
pub open spec fn rest_after(t: Seq<char>, n: int) -> Seq<char> {
    trim_spec(drop_n(t, n))
}

/// Of two prefixes that mark one command, the length of the one that `l` starts with,
/// the first one taking precedence.
pub open spec fn prefix_len(l: Seq<char>, first: Seq<char>, second: Seq<char>) -> int {
    if starts_with_spec(l, first) {
        first.len() as int
    } else {
        second.len() as int
    }
}

pub open spec fn matches_either(l: Seq<char>, a: Seq<char>, b: Seq<char>) -> bool {
    starts_with_spec(l, a) || starts_with_spec(l, b)
}

/// Whether `t`, past the translate prefix, holds a colon.
pub open spec fn translate_colon(t: Seq<char>) -> Option<int> {
    first_index_of(drop_n(t, TRANSLATE_TO@.len() as int), ':')
}

/// Command detection on a trimmed transcript `t` whose lower-case form is `l`.
pub open spec fn detect_spec(t: Seq<char>, l: Seq<char>, terms: Seq<Seq<char>>) -> DetectionView {
    if matches_either(l, SHORTEN_THIS@, SHORTEN@) {
        let c = rest_after(t, prefix_len(l, SHORTEN_THIS@, SHORTEN@));
        DetectionView {
            task: TaskView::Shorten { text: c },
            content: c,
            command_name: Some(NAME_SHORTEN@),
        }
    } else if matches_either(l, MAKE_FORMAL@, FORMALIZE@) {
        let c = rest_after(t, prefix_len(l, MAKE_FORMAL@, FORMALIZE@));
        DetectionView {
            task: TaskView::ChangeTone { text: c, target_tone: TONE_FORMAL@ },
            content: c,
            command_name: Some(NAME_FORMALIZE@),
        }
    } else if matches_either(l, MAKE_CASUAL@, CASUALIZE@) {
        let c = rest_after(t, prefix_len(l, MAKE_CASUAL@, CASUALIZE@));
        DetectionView {
            task: TaskView::ChangeTone { text: c, target_tone: TONE_CASUAL@ },
            content: c,
            command_name: Some(NAME_CASUALIZE@),
        }
    } else if matches_either(l, REPLY_TO@, GENERATE_REPLY@) {
        let c = rest_after(t, prefix_len(l, GENERATE_REPLY@, REPLY_TO@));
        DetectionView {
            task: TaskView::GenerateReply { context: c },
            content: c,
            command_name: Some(NAME_REPLY@),
        }
    } else if starts_with_spec(l, TRANSLATE_TO@) && translate_colon(t) is Some {
        let after = drop_n(t, TRANSLATE_TO@.len() as int);
        let k = translate_colon(t)->Some_0;
        let language = trim_spec(after.take(k));
        let c = trim_spec(after.skip(k + 1));
        DetectionView {
            task: TaskView::Translate { text: c, target_language: language },
            content: c,
            command_name: Some(TRANSLATE_TO@ + language),
        }
    } else {
        DetectionView {
            task: TaskView::PostProcess { text: t, dictionary_terms: terms },
            content: t,
            command_name: None,
        }
    }
}

/// The text after a prefix of `n` characters, trimmed.
fn rest_of(trimmed: &str, n: usize) -> (r: String)
    ensures
        r@ == rest_after(trimmed@, n as int),
{
    let tail = tail_from(trimmed, n);
    trim(tail.as_str())
}

/// Command detection once the transcript is trimmed and its lower-case form is known.
pub fn detect_command_lowered(trimmed: &str, lowered: &str, dictionary_terms: Vec<String>) -> (r:
    CommandDetection)
    ensures
        r@ == detect_spec(trimmed@, lowered@, strings_view(dictionary_terms@)),
{
    let a = starts_with(lowered, SHORTEN_THIS);
    if a || starts_with(lowered, SHORTEN) {
        let n = if a { SHORTEN_THIS.unicode_len() } else { SHORTEN.unicode_len() };
        let content = rest_of(trimmed, n);
        return CommandDetection {
            task: ProcessingTask::Shorten { text: content.clone() },
            content,
            command_name: Some(String::from_str(NAME_SHORTEN)),
        };
    }
    let a = starts_with(lowered, MAKE_FORMAL);
    if a || starts_with(lowered, FORMALIZE) {
        let n = if a { MAKE_FORMAL.unicode_len() } else { FORMALIZE.unicode_len() };
        let content = rest_of(trimmed, n);
        return CommandDetection {
            task: ProcessingTask::ChangeTone {
                text: content.clone(),
                target_tone: String::from_str(TONE_FORMAL),
            },
            content,
            command_name: Some(String::from_str(NAME_FORMALIZE)),
        };
    }
    let a = starts_with(lowered, MAKE_CASUAL);
    if a || starts_with(lowered, CASUALIZE) {
        let n = if a { MAKE_CASUAL.unicode_len() } else { CASUALIZE.unicode_len() };
        let content = rest_of(trimmed, n);
        return CommandDetection {
            task: ProcessingTask::ChangeTone {
                text: content.clone(),
                target_tone: String::from_str(TONE_CASUAL),
            },
            content,
            command_name: Some(String::from_str(NAME_CASUALIZE)),
        };
    }
    let a = starts_with(lowered, REPLY_TO);
    let b = starts_with(lowered, GENERATE_REPLY);
    if a || b {
        let n = if b { GENERATE_REPLY.unicode_len() } else { REPLY_TO.unicode_len() };
        let content = rest_of(trimmed, n);
        return CommandDetection {
            task: ProcessingTask::GenerateReply { context: content.clone() },
            content,
            command_name: Some(String::from_str(NAME_REPLY)),
        };
    }
    if starts_with(lowered, TRANSLATE_TO) {
        let after = tail_from(trimmed, TRANSLATE_TO.unicode_len());
        match find_char(after.as_str(), ':') {
            Some(k) => {
                proof {
                    lemma_first_index_in_range(after@, ':', k as int);
                }
                let n = after.as_str().unicode_len();
                let language = trim(after.as_str().substring_char(0, k));
                let content = trim(after.as_str().substring_char(k + 1, n));
                proof {
                    assert(after@.subrange(0, k as int) =~= after@.take(k as int));
                    assert(after@.subrange(k + 1, n as int) =~= after@.skip(k + 1));
                }
                let name = String::from_str(TRANSLATE_TO).concat(language.as_str());
                return CommandDetection {
                    task: ProcessingTask::Translate {
                        text: content.clone(),
                        target_language: language,
                    },
                    content,
                    command_name: Some(name),
                };
            },
            None => {},
        }
    }
    let text = String::from_str(trimmed);
    CommandDetection {
        task: ProcessingTask::PostProcess { text: text.clone(), dictionary_terms },
        content: text,
        command_name: None,
    }
}

proof fn lemma_first_index_in_range(s: Seq<char>, c: char, k: int)
    requires
        first_index_of(s, c) == Some(k),
    ensures
        0 <= k < s.len(),
        s[k] == c,
    decreases s.len(),
{
    if s.len() > 0 && s[0] != c {
        lemma_first_index_in_range(s.drop_first(), c, k - 1);
    }
}

/// Looks for a voice command at the start of `text` (white space trimmed, prefix
/// matched on the lower-case form); without one the task is the default clean-up
/// with the given dictionary terms.
pub fn detect_command(text: &str, dictionary_terms: Vec<String>) -> (r: CommandDetection)
    ensures
        r@ == detect_spec(
            trim_spec(text@),
            lower_of(trim_spec(text@)),
            strings_view(dictionary_terms@),
        ),
{
    let trimmed = trim(text);
    let lowered = lowercase(trimmed.as_str());
    detect_command_lowered(trimmed.as_str(), lowered.as_str(), dictionary_terms)
}

} // verus!
