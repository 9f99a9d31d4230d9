use crate::commands::{ProcessingTask, TaskView};
use crate::text::{join, join_spec, replace_all, replace_spec};
use vstd::prelude::*;
use vstd::string::*;

verus! {

pub const NO_TERMS: &'static str = "No custom terms defined.";
pub const TERM_SEPARATOR: &'static str = ", ";

pub const KEY_DICTIONARY_TERMS: &'static str = "{dictionary_terms}";
pub const KEY_RAW_TEXT: &'static str = "{raw_text}";
pub const KEY_TEXT: &'static str = "{text}";
pub const KEY_TONE: &'static str = "{tone}";
pub const KEY_CONTEXT: &'static str = "{context}";
pub const KEY_LANGUAGE: &'static str = "{language}";

pub const POST_PROCESS_FILE: &'static str = "post_process.md";
pub const SHORTEN_FILE: &'static str = "shorten.md";
pub const CHANGE_TONE_FILE: &'static str = "change_tone.md";
pub const GENERATE_REPLY_FILE: &'static str = "generate_reply.md";
pub const TRANSLATE_FILE: &'static str = "translate.md";

/// The name of the template file for a task.
pub open spec fn template_name_spec(t: TaskView) -> Seq<char> {
    match t {
        TaskView::PostProcess { .. } => POST_PROCESS_FILE@,
        TaskView::Shorten { .. } => SHORTEN_FILE@,
        TaskView::ChangeTone { .. } => CHANGE_TONE_FILE@,
        TaskView::GenerateReply { .. } => GENERATE_REPLY_FILE@,
        TaskView::Translate { .. } => TRANSLATE_FILE@,
    }
}

/// The dictionary terms as they appear in a prompt.
pub open spec fn terms_text(terms: Seq<Seq<char>>) -> Seq<char> {
    if terms.len() == 0 {
        NO_TERMS@
    } else {
        join_spec(terms, TERM_SEPARATOR@)
    }
}

/// The prompt for a task from its template: each placeholder replaced, in order.
pub open spec fn render_spec(t: TaskView, template: Seq<char>) -> Seq<char> {
    match t {
        TaskView::PostProcess { text, dictionary_terms } => replace_spec(
            replace_spec(template, KEY_DICTIONARY_TERMS@, terms_text(dictionary_terms)),
            KEY_RAW_TEXT@,
            text,
        ),
        TaskView::Shorten { text } => replace_spec(template, KEY_TEXT@, text),
        TaskView::ChangeTone { text, target_tone } => replace_spec(
            replace_spec(template, KEY_TEXT@, text),
            KEY_TONE@,
            target_tone,
        ),
        TaskView::GenerateReply { context } => replace_spec(template, KEY_CONTEXT@, context),
        TaskView::Translate { text, target_language } => replace_spec(
            replace_spec(template, KEY_TEXT@, text),
            KEY_LANGUAGE@,
            target_language,
        ),
    }
}

/// Where the prompt templates are kept.
pub struct PromptManager {
    prompts_dir: String,
}

pub const DEFAULT_PROMPTS_DIR: &'static str = "prompts";

impl PromptManager {
    pub closed spec fn dir(&self) -> Seq<char> {
        self.prompts_dir@
    }

    /// Templates in the `prompts` directory under the working directory.
    pub fn new() -> (r: Self)
        ensures
            r.dir() == DEFAULT_PROMPTS_DIR@,
    {
        PromptManager { prompts_dir: String::from_str(DEFAULT_PROMPTS_DIR) }
    }

    /// Templates in `dir`.
    pub fn with_dir(dir: &str) -> (r: Self)
        ensures
            r.dir() == dir@,
    {
        PromptManager { prompts_dir: String::from_str(dir) }
    }

    pub fn prompts_dir(&self) -> (r: &str)
        ensures
            r@ == self.dir(),
    {
        self.prompts_dir.as_str()
    }

    /// The path of the template for `task`: the directory, a slash, the file name.
    pub fn template_path(&self, task: &ProcessingTask) -> (r: String)
        ensures
            r@ == self.dir() + "/"@ + template_name_spec(task@),
    {
        String::from_str(self.prompts_dir.as_str()).concat("/").concat(template_name(task))
    }

    /// Fills the template of `task` with its texts.
    pub fn build_prompt(&self, task: &ProcessingTask, template: &str) -> (r: String)
        ensures
            r@ == render_spec(task@, template@),
    {
        render_prompt(task, template)
    }
}

impl Default for PromptManager {
    fn default() -> (r: Self)
        ensures
            r.dir() == DEFAULT_PROMPTS_DIR@,
    {
        PromptManager::new()
    }
}

/// The name of the template file for `task`.
pub fn template_name(task: &ProcessingTask) -> (r: &'static str)
    ensures
        r@ == template_name_spec(task@),
{
    match task {
        ProcessingTask::PostProcess { .. } => POST_PROCESS_FILE,
        ProcessingTask::Shorten { .. } => SHORTEN_FILE,
        ProcessingTask::ChangeTone { .. } => CHANGE_TONE_FILE,
        ProcessingTask::GenerateReply { .. } => GENERATE_REPLY_FILE,
        ProcessingTask::Translate { .. } => TRANSLATE_FILE,
    }
}

/// Fills `template` with the texts of `task`.
pub fn render_prompt(task: &ProcessingTask, template: &str) -> (r: String)
    ensures
        r@ == render_spec(task@, template@),
{
    match task {
        ProcessingTask::PostProcess { text, dictionary_terms } => {
            let terms = if dictionary_terms.len() == 0 {
                String::from_str(NO_TERMS)
            } else {
                join(dictionary_terms, TERM_SEPARATOR)
            };
            let a = replace_all(template, KEY_DICTIONARY_TERMS, terms.as_str());
            replace_all(a.as_str(), KEY_RAW_TEXT, text.as_str())
        },
        ProcessingTask::Shorten { text } => replace_all(template, KEY_TEXT, text.as_str()),
        ProcessingTask::ChangeTone { text, target_tone } => {
            let a = replace_all(template, KEY_TEXT, text.as_str());
            replace_all(a.as_str(), KEY_TONE, target_tone.as_str())
        },
        ProcessingTask::GenerateReply { context } => replace_all(
            template,
            KEY_CONTEXT,
            context.as_str(),
        ),
        ProcessingTask::Translate { text, target_language } => {
            let a = replace_all(template, KEY_TEXT, text.as_str());
            replace_all(a.as_str(), KEY_LANGUAGE, target_language.as_str())
        },
    }
}

} // verus!
