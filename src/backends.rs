use crate::error::LocaltypeError;
use crate::providers::{BatchSession, ReconnectConfig, BATCH_CHUNK_MS};
use crate::stt::{EventView, TranscriptionEvent};
use crate::text::{replace_all, replace_spec};
use vstd::prelude::*;
use vstd::string::*;

verus! {

// ---------------------------------------------------------------------------
// Session guard shared by the providers
// ---------------------------------------------------------------------------

/// The part of a provider's contract that does not depend on its transport:
/// one session at a time, audio only inside a session, events handed out once.
pub struct ProviderSession {
    started: bool,
    events_ready: bool,
}

impl ProviderSession {
    pub closed spec fn started_spec(&self) -> bool {
        self.started
    }

    pub closed spec fn events_ready_spec(&self) -> bool {
        self.events_ready
    }

    pub fn new() -> (r: Self)
        ensures
            !r.started_spec(),
            !r.events_ready_spec(),
    {
        ProviderSession { started: false, events_ready: false }
    }

    /// Opens a session; fails with `Stt` while one is open.
    pub fn start(&mut self) -> (r: Result<(), LocaltypeError>)
        ensures
            old(self).started_spec() <==> r is Err,
            r is Err ==> r->Err_0 is Stt && final(self).started_spec() && final(self).events_ready_spec() == old(self).events_ready_spec(),
            r is Ok ==> final(self).started_spec() && final(self).events_ready_spec(),
    {
        if self.started {
            return Err(LocaltypeError::Stt(String::from_str("Session already started")));
        }
        self.started = true;
        self.events_ready = true;
        Ok(())
    }

    /// Whether audio may be sent; fails with `Stt` outside a session.
    pub fn check_send(&self) -> (r: Result<(), LocaltypeError>)
        ensures
            self.started_spec() <==> r is Ok,
            r is Err ==> r->Err_0 is Stt,
    {
        if self.started {
            Ok(())
        } else {
            Err(LocaltypeError::Stt(String::from_str("Session not started")))
        }
    }

    /// Closes the session; closing a closed one changes nothing.
    pub fn stop(&mut self)
        ensures
            !final(self).started_spec(),
            final(self).events_ready_spec() == old(self).events_ready_spec(),
    {
        self.started = false;
    }

    /// Whether the event stream may be handed out now; true once per session.
    pub fn take_events(&mut self) -> (r: bool)
        ensures
            r == old(self).events_ready_spec(),
            !final(self).events_ready_spec(),
            final(self).started_spec() == old(self).started_spec(),
    {
        let r = self.events_ready;
        self.events_ready = false;
        r
    }
}

// ---------------------------------------------------------------------------
// Batch services
// ---------------------------------------------------------------------------

pub const GROQ_MODEL: &'static str = "whisper-large-v3-turbo";
pub const GROQ_ENDPOINT: &'static str = "https://api.groq.com/openai/v1/audio/transcriptions";
pub const CUSTOM_DEFAULT_MODEL: &'static str = "whisper-1";
/// The chunk duration for self-hosted endpoints, which are slower.
pub const CUSTOM_CHUNK_MS: u64 = 4000;
pub const TRANSCRIPTIONS_PATH: &'static str = "/audio/transcriptions";

/// The hosted Whisper service.
pub struct GroqProvider {
    api_key: String,
    model: String,
}

impl GroqProvider {
    pub closed spec fn key_spec(&self) -> Seq<char> {
        self.api_key@
    }

    pub closed spec fn model_spec(&self) -> Seq<char> {
        self.model@
    }

    pub fn new(api_key: String) -> (r: Self)
        ensures
            r.key_spec() == api_key@,
            r.model_spec() == GROQ_MODEL@,
    {
        GroqProvider { api_key, model: String::from_str(GROQ_MODEL) }
    }

    pub fn api_key(&self) -> (r: &str)
        ensures
            r@ == self.key_spec(),
    {
        self.api_key.as_str()
    }

    pub fn model(&self) -> (r: &str)
        ensures
            r@ == self.model_spec(),
    {
        self.model.as_str()
    }

    /// A fresh session with three-second chunks.
    pub fn session(&self) -> (r: BatchSession)
        ensures
            r.wf(),
            r@.buffer.len() == 0,
            r@.chunk_duration_ms == BATCH_CHUNK_MS,
            r@.accumulated.len() == 0,
    {
        BatchSession::new(BATCH_CHUNK_MS)
    }
}

/// `o` when it holds a non-empty text, else nothing.
pub open spec fn non_empty(o: Option<Seq<char>>) -> Option<Seq<char>> {
    match o {
        Some(s) => if s.len() > 0 {
            Some(s)
        } else {
            None
        },
        None => None,
    }
}

pub open spec fn opt_string_view(o: Option<String>) -> Option<Seq<char>> {
    match o {
        Some(s) => Some(s@),
        None => None,
    }
}

fn keep_non_empty(o: Option<String>) -> (r: Option<String>)
    ensures
        opt_string_view(r) == non_empty(opt_string_view(o)),
{
    match o {
        Some(s) => if s.as_str().unicode_len() > 0 {
            Some(s)
        } else {
            None
        },
        None => None,
    }
}

/// `s` without trailing slashes.
pub open spec fn strip_slashes(s: Seq<char>) -> Seq<char>
    decreases s.len(),
{
    if s.len() > 0 && s.last() == '/' {
        strip_slashes(s.drop_last())
    } else {
        s
    }
}

fn trim_end_slashes(s: &str) -> (r: String)
    ensures
        r@ == strip_slashes(s@),
{
    let mut j: usize = s.unicode_len();
    proof {
        assert(s@.subrange(0, j as int) =~= s@);
    }
    while j > 0 && s.get_char(j - 1) == '/'
        invariant
            j <= s@.len(),
            strip_slashes(s@) == strip_slashes(s@.subrange(0, j as int)),
        decreases j,
    {
        proof {
            assert(s@.subrange(0, j as int).drop_last() =~= s@.subrange(0, j - 1));
        }
        j = j - 1;
    }
    String::from_str(s.substring_char(0, j))
}

/// A self-hosted endpoint that speaks the OpenAI transcription protocol.
pub struct CustomSttProvider {
    base_url: String,
    api_key: Option<String>,
    model: String,
    language: Option<String>,
}

impl CustomSttProvider {
    pub closed spec fn base_url_spec(&self) -> Seq<char> {
        self.base_url@
    }

    pub closed spec fn key_spec(&self) -> Option<Seq<char>> {
        opt_string_view(self.api_key)
    }

    pub closed spec fn model_spec(&self) -> Seq<char> {
        self.model@
    }

    pub closed spec fn language_spec(&self) -> Option<Seq<char>> {
        opt_string_view(self.language)
    }

    /// Empty key, model or language count as absent; the model defaults to `whisper-1`.
    pub fn new(
        base_url: String,
        api_key: Option<String>,
        model: Option<String>,
        language: Option<String>,
    ) -> (r: Self)
        ensures
            r.base_url_spec() == base_url@,
            r.key_spec() == non_empty(opt_string_view(api_key)),
            r.language_spec() == non_empty(opt_string_view(language)),
            r.model_spec() == (match non_empty(opt_string_view(model)) {
                Some(m) => m,
                None => CUSTOM_DEFAULT_MODEL@,
            }),
    {
        let model = match keep_non_empty(model) {
            Some(m) => m,
            None => String::from_str(CUSTOM_DEFAULT_MODEL),
        };
        CustomSttProvider {
            base_url,
            api_key: keep_non_empty(api_key),
            model,
            language: keep_non_empty(language),
        }
    }

    pub fn api_key(&self) -> (r: Option<&str>)
        ensures
            r matches Some(k) ==> self.key_spec() == Some(k@),
            r is None ==> self.key_spec() is None,
    {
        match &self.api_key {
            Some(k) => Some(k.as_str()),
            None => None,
        }
    }

    pub fn model(&self) -> (r: &str)
        ensures
            r@ == self.model_spec(),
    {
        self.model.as_str()
    }

    pub fn language(&self) -> (r: Option<&str>)
        ensures
            r matches Some(l) ==> self.language_spec() == Some(l@),
            r is None ==> self.language_spec() is None,
    {
        match &self.language {
            Some(l) => Some(l.as_str()),
            None => None,
        }
    }

    /// The upload address: the base address without trailing slashes, then the
    /// transcription path.
    pub fn transcription_url(&self) -> (r: String)
        ensures
            r@ == strip_slashes(self.base_url_spec()) + TRANSCRIPTIONS_PATH@,
    {
        trim_end_slashes(self.base_url.as_str()).concat(TRANSCRIPTIONS_PATH)
    }

    /// A fresh session with four-second chunks.
    pub fn session(&self) -> (r: BatchSession)
        ensures
            r.wf(),
            r@.buffer.len() == 0,
            r@.chunk_duration_ms == CUSTOM_CHUNK_MS,
            r@.accumulated.len() == 0,
    {
        BatchSession::new(CUSTOM_CHUNK_MS)
    }
}

// ---------------------------------------------------------------------------
// Streaming service
// ---------------------------------------------------------------------------

#[verifier::external_type_specification]
#[verifier::external_body]
pub struct ExUrl(url::Url);

#[verifier::external_type_specification]
#[verifier::external_body]
pub struct ExParseError(url::ParseError);

/// Whether `url::Url::parse` accepts a text.
pub uninterp spec fn url_parses(s: Seq<char>) -> bool;

/// Relies on `url::Url::parse`: whether the address is accepted depends on the
/// text alone.
#[verifier::external_body]
fn parse_url(s: &str) -> (r: Result<url::Url, url::ParseError>)
    ensures
        r is Ok <==> url_parses(s@),
{
    url::Url::parse(s)
}

pub const ELEVENLABS_MODEL: &'static str = "scribe_v2";
pub const ELEVENLABS_LANGUAGE: &'static str = "en";
pub const WS_URL_HEAD: &'static str = "wss://api.elevenlabs.io/v1/speech-to-text/ws?model_id=";
pub const WS_URL_LANGUAGE: &'static str = "&language_code=";

/// The streaming speech service.
pub struct ElevenLabsProvider {
    api_key: String,
    model_id: String,
    language_code: String,
    reconnect: ReconnectConfig,
}

impl ElevenLabsProvider {
    pub closed spec fn key_spec(&self) -> Seq<char> {
        self.api_key@
    }

    pub closed spec fn model_spec(&self) -> Seq<char> {
        self.model_id@
    }

    pub closed spec fn language_spec(&self) -> Seq<char> {
        self.language_code@
    }

    pub closed spec fn reconnect_spec(&self) -> ReconnectConfig {
        self.reconnect
    }

    pub fn new(api_key: String) -> (r: Self)
        ensures
            r.key_spec() == api_key@,
            r.model_spec() == ELEVENLABS_MODEL@,
            r.language_spec() == ELEVENLABS_LANGUAGE@,
            r.reconnect_spec().max_retries == 10,
            r.reconnect_spec().base_delay_ms == 1000,
            r.reconnect_spec().max_delay_ms == 30000,
    {
        ElevenLabsProvider {
            api_key,
            model_id: String::from_str(ELEVENLABS_MODEL),
            language_code: String::from_str(ELEVENLABS_LANGUAGE),
            reconnect: ReconnectConfig::default(),
        }
    }

    pub fn with_config(api_key: String, model_id: String, language_code: String) -> (r: Self)
        ensures
            r.key_spec() == api_key@,
            r.model_spec() == model_id@,
            r.language_spec() == language_code@,
            r.reconnect_spec().max_retries == 10,
            r.reconnect_spec().base_delay_ms == 1000,
            r.reconnect_spec().max_delay_ms == 30000,
    {
        ElevenLabsProvider { api_key, model_id, language_code, reconnect: ReconnectConfig::default() }
    }

    pub fn api_key(&self) -> (r: &str)
        ensures
            r@ == self.key_spec(),
    {
        self.api_key.as_str()
    }

    pub fn reconnect_config(&self) -> (r: ReconnectConfig)
        ensures
            r == self.reconnect_spec(),
    {
        self.reconnect
    }

    /// The address of the service for this model and language.
    pub fn ws_url_text(&self) -> (r: String)
        ensures
            r@ == WS_URL_HEAD@ + self.model_spec() + WS_URL_LANGUAGE@ + self.language_spec(),
    {
        String::from_str(WS_URL_HEAD).concat(self.model_id.as_str()).concat(WS_URL_LANGUAGE).concat(
            self.language_code.as_str(),
        )
    }

    /// The address of the service, parsed; an unparsable one is an `Stt` error.
    pub fn build_ws_url(&self) -> (r: Result<url::Url, LocaltypeError>)
        ensures
            r is Ok <==> url_parses(
                WS_URL_HEAD@ + self.model_spec() + WS_URL_LANGUAGE@ + self.language_spec(),
            ),
            r is Err ==> r->Err_0 is Stt,
    {
        let text = self.ws_url_text();
        match parse_url(text.as_str()) {
            Ok(u) => Ok(u),
            Err(_) => Err(LocaltypeError::Stt(String::from_str("Invalid URL"))),
        }
    }
}

// ---------------------------------------------------------------------------
// On-device engine
// ---------------------------------------------------------------------------

/// Relies on `sys_locale::get_locale`: the system's preferred locale, if any.
/// It depends on the machine, so nothing is stated of it.
#[verifier::external_body]
fn system_locale() -> (r: Option<String>) {
    sys_locale::get_locale()
}

pub const AUTO_LOCALE: &'static str = "auto";
pub const FALLBACK_LOCALE: &'static str = "en_US";

/// The locale for the engine: the configured one, or for `auto` the system's
/// (with `_` for `-`), `en_US` when the system names none.
pub open spec fn resolve_locale_spec(configured: Seq<char>, system: Option<Seq<char>>) -> Seq<
    char,
> {
    if configured == AUTO_LOCALE@ {
        match system {
            Some(s) => replace_spec(s, "-"@, "_"@),
            None => FALLBACK_LOCALE@,
        }
    } else {
        configured
    }
}

/// Picks the engine's locale given the system's.
pub fn resolve_locale_with(configured: &str, system: Option<String>) -> (r: String)
    ensures
        r@ == resolve_locale_spec(configured@, opt_string_view(system)),
{
    let auto = String::from_str(AUTO_LOCALE);
    let conf = String::from_str(configured);
    if conf == auto {
        match system {
            Some(s) => replace_all(s.as_str(), "-", "_"),
            None => String::from_str(FALLBACK_LOCALE),
        }
    } else {
        conf
    }
}

/// The operating system's own speech engine.
pub struct AppleSttProvider {
    locale: String,
}

impl AppleSttProvider {
    pub closed spec fn locale_spec(&self) -> Seq<char> {
        self.locale@
    }

    /// A provider for `locale`; `auto` follows the system at session start.
    pub fn new(locale: String) -> (r: Self)
        ensures
            r.locale_spec() == locale@,
    {
        AppleSttProvider { locale }
    }

    /// The locale for a new session, whatever the system reports.
    pub fn resolve_locale(&self) -> (r: String)
        ensures
            self.locale_spec() != AUTO_LOCALE@ ==> r@ == self.locale_spec(),
            exists|sys: Option<Seq<char>>| r@ == resolve_locale_spec(self.locale_spec(), sys),
    {
        let sys = system_locale();
        let r = resolve_locale_with(self.locale.as_str(), sys);
        proof {
            assert(r@ == resolve_locale_spec(self.locale_spec(), opt_string_view(sys)));
        }
        r
    }
}

/// The event for a result from the engine: final results are committed.
pub fn native_result_event(text: String, timestamp_ms: u64, is_final: bool) -> (r: TranscriptionEvent)
    ensures
        is_final ==> r@ == (EventView::Committed { text: text@, timestamp_ms }),
        !is_final ==> r@ == (EventView::Partial { text: text@, timestamp_ms }),
{
    if is_final {
        TranscriptionEvent::Committed { text, timestamp_ms }
    } else {
        TranscriptionEvent::Partial { text, timestamp_ms }
    }
}

/// Owned callback contexts, each reachable through a handle until it is
/// reclaimed, and reclaimed at most once.
pub struct ContextArena<T> {
    slots: Vec<Option<T>>,
}

impl<T> ContextArena<T> {
    pub closed spec fn slots_spec(&self) -> Seq<Option<T>> {
        self.slots@
    }

    pub fn new() -> (r: Self)
        ensures
            r.slots_spec().len() == 0,
    {
        ContextArena { slots: Vec::new() }
    }

    /// Registers a context; the handle is new.
    pub fn register(&mut self, ctx: T) -> (h: usize)
        requires
            old(self).slots_spec().len() < usize::MAX,
        ensures
            h == old(self).slots_spec().len(),
            final(self).slots_spec() == old(self).slots_spec().push(Some(ctx)),
    {
        let h = self.slots.len();
        self.slots.push(Some(ctx));
        h
    }

    /// Whether `h` names a context not yet reclaimed.
    pub fn is_live(&self, h: usize) -> (r: bool)
        ensures
            r == (h < self.slots_spec().len() && self.slots_spec()[h as int] is Some),
    {
        h < self.slots.len() && self.slots[h].is_some()
    }

    /// Reclaims the context of `h`: it is returned the first time and never again.
    pub fn reclaim(&mut self, h: usize) -> (r: Option<T>)
        ensures
            h < old(self).slots_spec().len() ==> r == old(self).slots_spec()[h as int]
                && final(self).slots_spec() == old(self).slots_spec().update(h as int, None),
            h >= old(self).slots_spec().len() ==> r is None && final(self).slots_spec() == old(self).slots_spec(),
    {
        if h < self.slots.len() {
            let mut slot: Option<T> = None;
            std::mem::swap(&mut slot, &mut self.slots[h]);
            slot
        } else {
            None
        }
    }
}

} // verus!
