use crate::prompts::{PromptManager, DEFAULT_PROMPTS_DIR};
use vstd::prelude::*;
use vstd::string::*;

verus! {

/// What a finished command-line run printed and returned.
#[derive(Debug, Clone)]
pub struct CliOutput {
    pub stdout: String,
    pub stderr: String,
    pub exit_code: i32,
}

pub const DEFAULT_TIMEOUT_SECS: u64 = 30;

/// Runs language-model command-line tools under a time limit.
pub struct CliExecutor {
    timeout_secs: u64,
}

impl CliExecutor {
    pub closed spec fn timeout_spec(&self) -> u64 {
        self.timeout_secs
    }

    pub fn new() -> (r: Self)
        ensures
            r.timeout_spec() == DEFAULT_TIMEOUT_SECS,
    {
        CliExecutor { timeout_secs: DEFAULT_TIMEOUT_SECS }
    }

    pub fn with_timeout(timeout_secs: u64) -> (r: Self)
        ensures
            r.timeout_spec() == timeout_secs,
    {
        CliExecutor { timeout_secs }
    }

    pub fn timeout_secs(&self) -> (r: u64)
        ensures
            r == self.timeout_spec(),
    {
        self.timeout_secs
    }
}

impl Default for CliExecutor {
    fn default() -> (r: Self)
        ensures
            r.timeout_spec() == DEFAULT_TIMEOUT_SECS,
    {
        CliExecutor::new()
    }
}

/// Post-processing through the `gemini` command-line tool.
pub struct GeminiProcessor {
    executor: CliExecutor,
    prompt_manager: PromptManager,
}

impl GeminiProcessor {
    pub closed spec fn timeout_spec(&self) -> u64 {
        self.executor.timeout_spec()
    }

    pub closed spec fn prompts_spec(&self) -> Seq<char> {
        self.prompt_manager.dir()
    }

    pub fn new() -> (r: Self)
        ensures
            r.timeout_spec() == DEFAULT_TIMEOUT_SECS,
            r.prompts_spec() == DEFAULT_PROMPTS_DIR@,
    {
        GeminiProcessor { executor: CliExecutor::with_timeout(DEFAULT_TIMEOUT_SECS), prompt_manager: PromptManager::new() }
    }

    pub fn with_timeout(timeout_secs: u64) -> (r: Self)
        ensures
            r.timeout_spec() == timeout_secs,
            r.prompts_spec() == DEFAULT_PROMPTS_DIR@,
    {
        GeminiProcessor { executor: CliExecutor::with_timeout(timeout_secs), prompt_manager: PromptManager::new() }
    }

    pub fn executor(&self) -> (r: &CliExecutor)
        ensures
            r.timeout_spec() == self.timeout_spec(),
    {
        &self.executor
    }

    pub fn prompt_manager(&self) -> (r: &PromptManager)
        ensures
            r.dir() == self.prompts_spec(),
    {
        &self.prompt_manager
    }
}

impl Default for GeminiProcessor {
    fn default() -> (r: Self)
        ensures
            r.timeout_spec() == DEFAULT_TIMEOUT_SECS,
    {
        GeminiProcessor::new()
    }
}

pub const COPILOT_DEFAULT_MODEL: &'static str = "gpt-5-mini";

/// The model to use: the one asked for, unless it is missing or empty.
pub open spec fn chosen_model(model: Option<Seq<char>>) -> Seq<char> {
    match model {
        Some(m) => if m.len() > 0 {
            m
        } else {
            COPILOT_DEFAULT_MODEL@
        },
        None => COPILOT_DEFAULT_MODEL@,
    }
}

/// Post-processing through the `copilot` command-line tool.
pub struct CopilotProcessor {
    executor: CliExecutor,
    prompt_manager: PromptManager,
    model: Option<String>,
}

impl CopilotProcessor {
    pub closed spec fn timeout_spec(&self) -> u64 {
        self.executor.timeout_spec()
    }

    pub closed spec fn model_spec(&self) -> Option<Seq<char>> {
        match self.model {
            Some(m) => Some(m@),
            None => None,
        }
    }

    pub fn new() -> (r: Self)
        ensures
            r.timeout_spec() == DEFAULT_TIMEOUT_SECS,
            r.model_spec() == Some(COPILOT_DEFAULT_MODEL@),
    {
        CopilotProcessor {
            executor: CliExecutor::with_timeout(DEFAULT_TIMEOUT_SECS),
            prompt_manager: PromptManager::new(),
            model: Some(String::from_str(COPILOT_DEFAULT_MODEL)),
        }
    }

    /// A processor for `model`; a missing or empty name means the default model.
    pub fn with_model(model: Option<String>) -> (r: Self)
        ensures
            r.timeout_spec() == DEFAULT_TIMEOUT_SECS,
            r.model_spec() == Some(
                chosen_model(
                    match model {
                        Some(m) => Some(m@),
                        None => None,
                    },
                ),
            ),
    {
        let chosen = match model {
            Some(m) => if m.as_str().unicode_len() > 0 {
                m
            } else {
                String::from_str(COPILOT_DEFAULT_MODEL)
            },
            None => String::from_str(COPILOT_DEFAULT_MODEL),
        };
        CopilotProcessor {
            executor: CliExecutor::with_timeout(DEFAULT_TIMEOUT_SECS),
            prompt_manager: PromptManager::new(),
            model: Some(chosen),
        }
    }

    pub fn with_timeout(timeout_secs: u64) -> (r: Self)
        ensures
            r.timeout_spec() == timeout_secs,
            r.model_spec() == Some(COPILOT_DEFAULT_MODEL@),
    {
        CopilotProcessor {
            executor: CliExecutor::with_timeout(timeout_secs),
            prompt_manager: PromptManager::new(),
            model: Some(String::from_str(COPILOT_DEFAULT_MODEL)),
        }
    }

    pub fn model(&self) -> (r: Option<&str>)
        ensures
            r matches Some(m) ==> self.model_spec() == Some(m@),
            r is None ==> self.model_spec() is None,
    {
        match &self.model {
            Some(m) => Some(m.as_str()),
            None => None,
        }
    }

    pub fn executor(&self) -> (r: &CliExecutor)
        ensures
            r.timeout_spec() == self.timeout_spec(),
    {
        &self.executor
    }

    pub fn prompt_manager(&self) -> &PromptManager {
        &self.prompt_manager
    }
}

impl Default for CopilotProcessor {
    fn default() -> (r: Self)
        ensures
            r.timeout_spec() == DEFAULT_TIMEOUT_SECS,
    {
        CopilotProcessor::new()
    }
}

/// Post-processing by the system's on-device model.
pub struct AppleLlmProcessor {
    prompt_manager: PromptManager,
}

impl AppleLlmProcessor {
    pub closed spec fn prompts_spec(&self) -> Seq<char> {
        self.prompt_manager.dir()
    }

    pub fn new() -> (r: Self)
        ensures
            r.prompts_spec() == DEFAULT_PROMPTS_DIR@,
    {
        AppleLlmProcessor { prompt_manager: PromptManager::new() }
    }

    /// The system model is the only one; the name is ignored.
    pub fn with_model(model: Option<String>) -> (r: Self)
        ensures
            r.prompts_spec() == DEFAULT_PROMPTS_DIR@,
    {
        AppleLlmProcessor::new()
    }

    pub fn prompt_manager(&self) -> (r: &PromptManager)
        ensures
            r.dir() == self.prompts_spec(),
    {
        &self.prompt_manager
    }
}

impl Default for AppleLlmProcessor {
    fn default() -> (r: Self)
        ensures
            r.prompts_spec() == DEFAULT_PROMPTS_DIR@,
    {
        AppleLlmProcessor::new()
    }
}

} // verus!
