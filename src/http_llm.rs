use crate::config::ApiFormat;
use crate::error::LocaltypeError;
use crate::prompts::PromptManager;
use vstd::prelude::*;
use vstd::string::*;

verus! {

pub const OPENAI_DEFAULT_MODEL: &'static str = "gpt-4o-mini";
pub const GEMINI_API_DEFAULT_MODEL: &'static str = "gemini-2.0-flash";

pub const OPENAI_BASE_URL: &'static str = "https://api.openai.com/v1";
pub const CLAUDE_BASE_URL: &'static str = "https://api.anthropic.com";
pub const GEMINI_BASE_URL: &'static str = "https://generativelanguage.googleapis.com";
pub const HTTP_TIMEOUT_SECS: u64 = 30;

pub const SYSTEM_PROMPT: &'static str = "You are a helpful text processing assistant. Follow the instructions precisely and return only the processed text.";
pub const CLAUDE_API_VERSION: &'static str = "2023-06-01";
pub const CLAUDE_MAX_TOKENS: &'static str = "4096";

/// A language-model web service and the model to ask.
pub struct HttpLlmProcessor {
    api_format: ApiFormat,
    base_url: String,
    api_key: String,
    model: String,
    prompt_manager: PromptManager,
    timeout_secs: u64,
}

/// The model asked for, unless it is missing or empty.
pub open spec fn model_or(model: Option<Seq<char>>, default: Seq<char>) -> Seq<char> {
    match model {
        Some(m) => if m.len() > 0 {
            m
        } else {
            default
        },
        None => default,
    }
}

pub open spec fn opt_view(o: Option<String>) -> Option<Seq<char>> {
    match o {
        Some(s) => Some(s@),
        None => None,
    }
}

fn pick_model(model: Option<String>, default: &str) -> (r: String)
    ensures
        r@ == model_or(opt_view(model), default@),
{
    match model {
        Some(m) => if m.as_str().unicode_len() > 0 {
            m
        } else {
            String::from_str(default)
        },
        None => String::from_str(default),
    }
}

impl HttpLlmProcessor {
    pub closed spec fn format_spec(&self) -> ApiFormat {
        self.api_format
    }

    pub closed spec fn base_url_spec(&self) -> Seq<char> {
        self.base_url@
    }

    pub closed spec fn key_spec(&self) -> Seq<char> {
        self.api_key@
    }

    pub closed spec fn model_spec(&self) -> Seq<char> {
        self.model@
    }

    pub closed spec fn timeout_spec(&self) -> u64 {
        self.timeout_secs
    }

    fn make(api_format: ApiFormat, base_url: String, api_key: String, model: String) -> (r: Self)
        ensures
            r.format_spec() == api_format,
            r.base_url_spec() == base_url@,
            r.key_spec() == api_key@,
            r.model_spec() == model@,
            r.timeout_spec() == HTTP_TIMEOUT_SECS,
    {
        HttpLlmProcessor {
            api_format,
            base_url,
            api_key,
            model,
            prompt_manager: PromptManager::new(),
            timeout_secs: HTTP_TIMEOUT_SECS,
        }
    }

    pub fn openai(api_key: String, model: Option<String>) -> (r: Self)
        ensures
            r.format_spec() == ApiFormat::OpenAi,
            r.base_url_spec() == OPENAI_BASE_URL@,
            r.key_spec() == api_key@,
            r.model_spec() == model_or(opt_view(model), OPENAI_DEFAULT_MODEL@),
            r.timeout_spec() == HTTP_TIMEOUT_SECS,
    {
        let model = pick_model(model, OPENAI_DEFAULT_MODEL);
        Self::make(ApiFormat::OpenAi, String::from_str(OPENAI_BASE_URL), api_key, model)
    }

    /// The messages service; its default model is configuration, given as `default_model`.
    pub fn claude(api_key: String, model: Option<String>, default_model: &str) -> (r: Self)
        ensures
            r.format_spec() == ApiFormat::Claude,
            r.base_url_spec() == CLAUDE_BASE_URL@,
            r.key_spec() == api_key@,
            r.model_spec() == model_or(opt_view(model), default_model@),
            r.timeout_spec() == HTTP_TIMEOUT_SECS,
    {
        let model = pick_model(model, default_model);
        Self::make(ApiFormat::Claude, String::from_str(CLAUDE_BASE_URL), api_key, model)
    }

    pub fn gemini_api(api_key: String, model: Option<String>) -> (r: Self)
        ensures
            r.format_spec() == ApiFormat::GeminiApi,
            r.base_url_spec() == GEMINI_BASE_URL@,
            r.key_spec() == api_key@,
            r.model_spec() == model_or(opt_view(model), GEMINI_API_DEFAULT_MODEL@),
            r.timeout_spec() == HTTP_TIMEOUT_SECS,
    {
        let model = pick_model(model, GEMINI_API_DEFAULT_MODEL);
        Self::make(ApiFormat::GeminiApi, String::from_str(GEMINI_BASE_URL), api_key, model)
    }

    /// An endpoint of its own that speaks the OpenAI chat protocol.
    pub fn custom(base_url: String, api_key: String, model: Option<String>) -> (r: Self)
        ensures
            r.format_spec() == ApiFormat::OpenAi,
            r.base_url_spec() == base_url@,
            r.key_spec() == api_key@,
            r.model_spec() == model_or(opt_view(model), OPENAI_DEFAULT_MODEL@),
            r.timeout_spec() == HTTP_TIMEOUT_SECS,
    {
        let model = pick_model(model, OPENAI_DEFAULT_MODEL);
        Self::make(ApiFormat::OpenAi, base_url, api_key, model)
    }

    pub fn api_format(&self) -> (r: ApiFormat)
        ensures
            r == self.format_spec(),
    {
        self.api_format
    }

    pub fn base_url(&self) -> (r: &str)
        ensures
            r@ == self.base_url_spec(),
    {
        self.base_url.as_str()
    }

    pub fn model(&self) -> (r: &str)
        ensures
            r@ == self.model_spec(),
    {
        self.model.as_str()
    }

    pub fn timeout_secs(&self) -> (r: u64)
        ensures
            r == self.timeout_spec(),
    {
        self.timeout_secs
    }

    pub fn prompt_manager(&self) -> &PromptManager {
        &self.prompt_manager
    }

    /// Ready when a key is configured; no request is made.
    pub fn health_check(&self) -> (r: bool)
        ensures
            r == (self.key_spec().len() > 0),
    {
        self.api_key.as_str().unicode_len() > 0
    }

    /// The request for `prompt`: address, headers and JSON body for the service.
    pub fn build_request(&self, prompt: &str) -> (r: Result<RequestPlan, LocaltypeError>)
        ensures
            r is Ok,
            r matches Ok(p) ==> p@ == request_spec(
                self.format_spec(),
                self.base_url_spec(),
                self.key_spec(),
                self.model_spec(),
                prompt@,
            ),
    {
        let model_q = match quote(self.model.as_str()) {
            Ok(q) => q,
            Err(e) => {
                return Err(e);
            },
        };
        let prompt_q = match quote(prompt) {
            Ok(q) => q,
            Err(e) => {
                return Err(e);
            },
        };
        let system_q = match quote(SYSTEM_PROMPT) {
            Ok(q) => q,
            Err(e) => {
                return Err(e);
            },
        };
        match self.api_format {
            ApiFormat::OpenAi => {
                let url = String::from_str(self.base_url.as_str()).concat("/chat/completions");
                let auth = String::from_str("Bearer ").concat(self.api_key.as_str());
                let mut headers: Vec<(String, String)> = Vec::new();
                headers.push((String::from_str("Authorization"), auth));
                let body = String::from_str("{\"model\":").concat(model_q.as_str()).concat(
                    ",\"messages\":[{\"role\":\"system\",\"content\":",
                ).concat(system_q.as_str()).concat("},{\"role\":\"user\",\"content\":").concat(
                    prompt_q.as_str(),
                ).concat("}]}");
                let plan = RequestPlan { url, headers, body };
                proof {
                    assert(plan@.headers =~= seq![("Authorization"@, "Bearer "@ + self.key_spec())]);
                }
                Ok(plan)
            },
            ApiFormat::Claude => {
                let url = String::from_str(self.base_url.as_str()).concat("/v1/messages");
                let mut headers: Vec<(String, String)> = Vec::new();
                headers.push((String::from_str("x-api-key"), self.api_key.clone()));
                headers.push((String::from_str("anthropic-version"), String::from_str(CLAUDE_API_VERSION)));
                headers.push((String::from_str("content-type"), String::from_str("application/json")));
                let body = String::from_str("{\"model\":").concat(model_q.as_str()).concat(
                    ",\"max_tokens\":",
                ).concat(CLAUDE_MAX_TOKENS).concat(",\"system\":").concat(system_q.as_str()).concat(
                    ",\"messages\":[{\"role\":\"user\",\"content\":",
                ).concat(prompt_q.as_str()).concat("}]}");
                let plan = RequestPlan { url, headers, body };
                proof {
                    assert(plan@.headers =~= seq![
                        ("x-api-key"@, self.key_spec()),
                        ("anthropic-version"@, CLAUDE_API_VERSION@),
                        ("content-type"@, "application/json"@),
                    ]);
                }
                Ok(plan)
            },
            ApiFormat::GeminiApi => {
                let url = String::from_str(self.base_url.as_str()).concat("/v1beta/models/").concat(
                    self.model.as_str(),
                ).concat(":generateContent?key=").concat(self.api_key.as_str());
                let headers: Vec<(String, String)> = Vec::new();
                let body = String::from_str("{\"contents\":[{\"parts\":[{\"text\":").concat(
                    prompt_q.as_str(),
                ).concat("}]}]}");
                let plan = RequestPlan { url, headers, body };
                proof {
                    assert(plan@.headers =~= Seq::<(Seq<char>, Seq<char>)>::empty());
                }
                Ok(plan)
            },
        }
    }

    /// Where the text stands in a response of this service.
    pub fn response_path(&self) -> (r: Vec<PathStep>)
        ensures
            steps_view(r@) == path_spec(self.format_spec()),
    {
        response_path_for(self.api_format)
    }
}

/// A request to make: address, headers, and a JSON body.
pub struct RequestPlan {
    pub url: String,
    pub headers: Vec<(String, String)>,
    pub body: String,
}

pub struct RequestView {
    pub url: Seq<char>,
    pub headers: Seq<(Seq<char>, Seq<char>)>,
    pub body: Seq<char>,
}

impl View for RequestPlan {
    type V = RequestView;

    open spec fn view(&self) -> RequestView {
        RequestView {
            url: self.url@,
            headers: self.headers@.map_values(|h: (String, String)| (h.0@, h.1@)),
            body: self.body@,
        }
    }
}

/// What `serde_json::to_string` makes of a text: the quoted, escaped JSON string.
pub uninterp spec fn json_string_of(s: Seq<char>) -> Seq<char>;

#[verifier::external_type_specification]
#[verifier::external_body]
pub struct ExJsonError(serde_json::Error);

/// Relies on `serde_json::to_string` on a `str`: the JSON string literal for the
/// text, a function of the text alone. A `str` serialises into memory without
/// failing.
#[verifier::external_body]
fn json_quote(s: &str) -> (r: Result<String, serde_json::Error>)
    ensures
        r is Ok,
        r matches Ok(q) ==> q@ == json_string_of(s@),
{
    serde_json::to_string(s)
}

fn quote(s: &str) -> (r: Result<String, LocaltypeError>)
    ensures
        r is Ok,
        r matches Ok(q) ==> q@ == json_string_of(s@),
{
    match json_quote(s) {
        Ok(q) => Ok(q),
        Err(_) => Err(LocaltypeError::Llm(String::from_str("Failed to encode request"))),
    }
}

/// The request for a service: the chat-completions, messages or generate-content
/// call with the prompt as the user's message.
pub open spec fn request_spec(
    format: ApiFormat,
    base: Seq<char>,
    key: Seq<char>,
    model: Seq<char>,
    prompt: Seq<char>,
) -> RequestView {
    match format {
        ApiFormat::OpenAi => RequestView {
            url: base + "/chat/completions"@,
            headers: seq![("Authorization"@, "Bearer "@ + key)],
            body: "{\"model\":"@ + json_string_of(model)
                + ",\"messages\":[{\"role\":\"system\",\"content\":"@ + json_string_of(SYSTEM_PROMPT@)
                + "},{\"role\":\"user\",\"content\":"@ + json_string_of(prompt) + "}]}"@,
        },
        ApiFormat::Claude => RequestView {
            url: base + "/v1/messages"@,
            headers: seq![
                ("x-api-key"@, key),
                ("anthropic-version"@, CLAUDE_API_VERSION@),
                ("content-type"@, "application/json"@),
            ],
            body: "{\"model\":"@ + json_string_of(model) + ",\"max_tokens\":"@ + CLAUDE_MAX_TOKENS@
                + ",\"system\":"@ + json_string_of(SYSTEM_PROMPT@)
                + ",\"messages\":[{\"role\":\"user\",\"content\":"@ + json_string_of(prompt)
                + "}]}"@,
        },
        ApiFormat::GeminiApi => RequestView {
            url: base + "/v1beta/models/"@ + model + ":generateContent?key="@ + key,
            headers: Seq::empty(),
            body: "{\"contents\":[{\"parts\":[{\"text\":"@ + json_string_of(prompt) + "}]}]}"@,
        },
    }
}

/// One step into a JSON document: a member of an object or an element of an array.
#[derive(Debug, Clone, PartialEq, Eq)]
pub enum PathStep {
    Key(String),
    Index(usize),
}

pub enum StepView {
    Key(Seq<char>),
    Index(usize),
}

pub open spec fn step_view(s: PathStep) -> StepView {
    match s {
        PathStep::Key(k) => StepView::Key(k@),
        PathStep::Index(i) => StepView::Index(i),
    }
}

pub open spec fn steps_view(s: Seq<PathStep>) -> Seq<StepView> {
    s.map_values(|p: PathStep| step_view(p))
}

/// Where each service puts the generated text.
pub open spec fn path_spec(format: ApiFormat) -> Seq<StepView> {
    match format {
        ApiFormat::OpenAi => seq![
            StepView::Key("choices"@),
            StepView::Index(0),
            StepView::Key("message"@),
            StepView::Key("content"@),
        ],
        ApiFormat::Claude => seq![StepView::Key("content"@), StepView::Index(0), StepView::Key("text"@)],
        ApiFormat::GeminiApi => seq![
            StepView::Key("candidates"@),
            StepView::Index(0),
            StepView::Key("content"@),
            StepView::Key("parts"@),
            StepView::Index(0),
            StepView::Key("text"@),
        ],
    }
}

fn key(k: &str) -> (r: PathStep)
    ensures
        step_view(r) == StepView::Key(k@),
{
    PathStep::Key(String::from_str(k))
}

/// Where the text stands in a response in `format`.
pub fn response_path_for(format: ApiFormat) -> (r: Vec<PathStep>)
    ensures
        steps_view(r@) == path_spec(format),
{
    let mut v: Vec<PathStep> = Vec::new();
    match format {
        ApiFormat::OpenAi => {
            v.push(key("choices"));
            v.push(PathStep::Index(0));
            v.push(key("message"));
            v.push(key("content"));
        },
        ApiFormat::Claude => {
            v.push(key("content"));
            v.push(PathStep::Index(0));
            v.push(key("text"));
        },
        ApiFormat::GeminiApi => {
            v.push(key("candidates"));
            v.push(PathStep::Index(0));
            v.push(key("content"));
            v.push(key("parts"));
            v.push(PathStep::Index(0));
            v.push(key("text"));
        },
    }
    proof {
        assert(steps_view(v@) =~= path_spec(format));
    }
    v
}

pub const REPLY_KEY_TEXT: &'static str = "text";
pub const REPLY_KEY_CONTENT: &'static str = "content";
pub const REPLY_KEY_RESPONSE: &'static str = "response";

/// The members of a command-line tool's JSON reply that may hold the text, in the
/// order they are tried; when none holds a string, the reply itself (trimmed) is
/// the text.
pub fn cli_reply_keys() -> (r: Vec<String>)
    ensures
        r@.len() == 3,
        r@[0]@ == REPLY_KEY_TEXT@,
        r@[1]@ == REPLY_KEY_CONTENT@,
        r@[2]@ == REPLY_KEY_RESPONSE@,
{
    let mut v: Vec<String> = Vec::new();
    v.push(String::from_str(REPLY_KEY_TEXT));
    v.push(String::from_str(REPLY_KEY_CONTENT));
    v.push(String::from_str(REPLY_KEY_RESPONSE));
    v
}

/// How an unsuccessful HTTP status is reported.
#[derive(Debug, Clone, Copy, PartialEq, Eq, Structural)]
pub enum HttpFailure {
    /// 401: the key was refused.
    Authentication,
    /// 429: too many requests.
    RateLimited,
    /// 5xx.
    Server,
    /// Any other status; the body is shown.
    Other,
}

pub open spec fn failure_spec(status: u16) -> HttpFailure {
    if status == 401 {
        HttpFailure::Authentication
    } else if status == 429 {
        HttpFailure::RateLimited
    } else if 500 <= status <= 599 {
        HttpFailure::Server
    } else {
        HttpFailure::Other
    }
}

pub fn classify_http_failure(status: u16) -> (r: HttpFailure)
    ensures
        r == failure_spec(status),
{
    if status == 401 {
        HttpFailure::Authentication
    } else if status == 429 {
        HttpFailure::RateLimited
    } else if 500 <= status && status <= 599 {
        HttpFailure::Server
    } else {
        HttpFailure::Other
    }
}

/// The body as shown in an error: its first 200 characters.
pub fn body_excerpt(body: &str) -> (r: String)
    ensures
        body@.len() <= 200 ==> r@ == body@,
        body@.len() > 200 ==> r@ == body@.take(200),
{
    let n = body.unicode_len();
    if n <= 200 {
        proof {
            assert(body@.subrange(0, n as int) =~= body@);
        }
        String::from_str(body.substring_char(0, n))
    } else {
        String::from_str(body.substring_char(0, 200))
    }
}

} // verus!
