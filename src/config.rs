use vstd::prelude::*;

verus! {

/// The speech-to-text services on offer.
#[derive(Debug, Clone, Copy, PartialEq, Eq, Structural)]
pub enum SttProviderType {
    ElevenLabs,
    OpenAI,
    Groq,
}

impl Default for SttProviderType {
    fn default() -> (r: Self)
        ensures
            r == SttProviderType::ElevenLabs,
    {
        SttProviderType::ElevenLabs
    }
}

/// The language-model command-line tools on offer.
#[derive(Debug, Clone, Copy, PartialEq, Eq, Structural)]
pub enum LlmProcessorType {
    Gemini,
    Copilot,
}

impl Default for LlmProcessorType {
    fn default() -> (r: Self)
        ensures
            r == LlmProcessorType::Gemini,
    {
        LlmProcessorType::Gemini
    }
}

/// Where the final text goes.
#[derive(Debug, Clone, Copy, PartialEq, Eq, Structural)]
pub enum OutputMode {
    Clipboard,
    Keyboard,
    Both,
}

impl Default for OutputMode {
    fn default() -> (r: Self)
        ensures
            r == OutputMode::Clipboard,
    {
        OutputMode::Clipboard
    }
}

/// The request and response shapes of the language-model web services.
#[derive(Debug, Clone, Copy, PartialEq, Eq, Structural)]
pub enum ApiFormat {
    OpenAi,
    Claude,
    GeminiApi,
}

/// Whether the on-device speech model is ready.
#[derive(Debug, Clone, Copy, PartialEq, Eq, Structural)]
pub enum SpeechModelStatus {
    Installed,
    NotInstalled,
    Downloading,
    Unavailable,
}

/// The status that the native engine's numeric code stands for.
pub open spec fn status_of_code(v: i32) -> SpeechModelStatus {
    if v == 0 {
        SpeechModelStatus::Installed
    } else if v == 1 {
        SpeechModelStatus::NotInstalled
    } else if v == 2 {
        SpeechModelStatus::Downloading
    } else {
        SpeechModelStatus::Unavailable
    }
}

impl From<i32> for SpeechModelStatus {
    fn from(v: i32) -> (r: Self) {
        match v {
            0 => SpeechModelStatus::Installed,
            1 => SpeechModelStatus::NotInstalled,
            2 => SpeechModelStatus::Downloading,
            _ => SpeechModelStatus::Unavailable,
        }
    }
}

impl vstd::std_specs::convert::FromSpecImpl<i32> for SpeechModelStatus {
    open spec fn obeys_from_spec() -> bool {
        true
    }

    open spec fn from_spec(v: i32) -> SpeechModelStatus {
        status_of_code(v)
    }
}

} // verus!
