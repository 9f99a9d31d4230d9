use crate::chunker::{flush_due, AudioChunker, CHUNK_SAMPLE_RATE};
use crate::stt::{join_space, join_with_space, AudioChunk, EventView, TranscriptionEvent};
use crate::text::{trim, trim_spec};
use crate::wav::{encode_wav, wav_fits, wav_spec};
use base64::Engine;
use vstd::prelude::*;
use vstd::string::*;

verus! {

// ---------------------------------------------------------------------------
// Streaming provider: reconnection and framing
// ---------------------------------------------------------------------------

pub open spec fn pow2(n: nat) -> nat
    decreases n,
{
    if n == 0 {
        1
    } else {
        2 * pow2((n - 1) as nat)
    }
}

/// The wait before reconnection attempt `retry`: `min(base * 2^retry, cap)`.
pub open spec fn backoff_spec(base: nat, cap: nat, retry: nat) -> nat {
    if base * pow2(retry) <= cap {
        base * pow2(retry)
    } else {
        cap
    }
}

proof fn lemma_pow2_positive(n: nat)
    ensures
        pow2(n) >= 1,
    decreases n,
{
    if n > 0 {
        lemma_pow2_positive((n - 1) as nat);
    }
}

/// Exponential backoff, capped: `min(base_delay_ms * 2^retry, max_delay_ms)`.
pub fn backoff_delay(base_delay_ms: u64, max_delay_ms: u64, retry: u32) -> (r: u64)
    ensures
        r == backoff_spec(base_delay_ms as nat, max_delay_ms as nat, retry as nat),
{
    if base_delay_ms > max_delay_ms {
        proof {
            lemma_pow2_positive(retry as nat);
            assert(base_delay_ms * pow2(retry as nat) >= base_delay_ms) by (nonlinear_arith)
                requires
                    pow2(retry as nat) >= 1,
            ;
        }
        return max_delay_ms;
    }
    let mut d: u64 = base_delay_ms;
    let mut k: u32 = 0;
    proof {
        assert(pow2(0) == 1);
    }
    while k < retry
        invariant
            k <= retry,
            d == base_delay_ms * pow2(k as nat),
            d <= max_delay_ms,
        decreases retry - k,
    {
        if d > max_delay_ms / 2 {
            proof {
                assert(base_delay_ms * pow2(retry as nat) > max_delay_ms) by {
                    lemma_pow2_mono(k as nat + 1, retry as nat);
                    assert(base_delay_ms * pow2(k as nat + 1) == 2 * d) by (nonlinear_arith)
                        requires
                            d == base_delay_ms * pow2(k as nat),
                            pow2(k as nat + 1) == 2 * pow2(k as nat),
                    ;
                    assert(base_delay_ms * pow2(k as nat + 1) <= base_delay_ms * pow2(
                        retry as nat,
                    )) by (nonlinear_arith)
                        requires
                            pow2(k as nat + 1) <= pow2(retry as nat),
                    ;
                }
            }
            return max_delay_ms;
        }
        proof {
            assert(base_delay_ms * pow2(k as nat + 1) == 2 * d) by (nonlinear_arith)
                requires
                    d == base_delay_ms * pow2(k as nat),
                    pow2(k as nat + 1) == 2 * pow2(k as nat),
            ;
        }
        d = 2 * d;
        k = k + 1;
    }
    if d <= max_delay_ms {
        d
    } else {
        max_delay_ms
    }
}

proof fn lemma_pow2_mono(a: nat, b: nat)
    requires
        a <= b,
    ensures
        pow2(a) <= pow2(b),
    decreases b - a,
{
    if a < b {
        lemma_pow2_mono(a, (b - 1) as nat);
        lemma_pow2_positive((b - 1) as nat);
    }
}

/// How a streaming connection is retried.
#[derive(Debug, Clone, Copy, PartialEq, Eq, Structural)]
pub struct ReconnectConfig {
    pub max_retries: u32,
    pub base_delay_ms: u64,
    pub max_delay_ms: u64,
}

pub const DEFAULT_MAX_RETRIES: u32 = 10;
pub const DEFAULT_BASE_DELAY_MS: u64 = 1000;
pub const DEFAULT_MAX_DELAY_MS: u64 = 30000;

impl Default for ReconnectConfig {
    fn default() -> (r: Self)
        ensures
            r.max_retries == DEFAULT_MAX_RETRIES,
            r.base_delay_ms == DEFAULT_BASE_DELAY_MS,
            r.max_delay_ms == DEFAULT_MAX_DELAY_MS,
    {
        ReconnectConfig {
            max_retries: DEFAULT_MAX_RETRIES,
            base_delay_ms: DEFAULT_BASE_DELAY_MS,
            max_delay_ms: DEFAULT_MAX_DELAY_MS,
        }
    }
}

impl ReconnectConfig {
    /// After `retry_count` failed attempts: the wait before the next one, or
    /// `None` when the retries are exhausted and the connection has failed.
    pub fn next_delay(&self, retry_count: u32) -> (r: Option<u64>)
        ensures
            retry_count >= self.max_retries <==> r is None,
            r matches Some(d) ==> d == backoff_spec(
                self.base_delay_ms as nat,
                self.max_delay_ms as nat,
                retry_count as nat,
            ),
    {
        if retry_count >= self.max_retries {
            None
        } else {
            Some(backoff_delay(self.base_delay_ms, self.max_delay_ms, retry_count))
        }
    }
}

impl ReconnectConfig {
    /// The next step after `retry_count` failed attempts: the wait before another
    /// one, or `None` when reconnection has been switched off (the session is
    /// stopping) or the retries are exhausted.
    pub fn next_attempt(&self, retry_count: u32, reconnect_allowed: bool) -> (r: Option<u64>)
        ensures
            (!reconnect_allowed || retry_count >= self.max_retries) <==> r is None,
            r matches Some(d) ==> d == backoff_spec(
                self.base_delay_ms as nat,
                self.max_delay_ms as nat,
                retry_count as nat,
            ),
    {
        if !reconnect_allowed {
            None
        } else {
            self.next_delay(retry_count)
        }
    }
}

/// With the default configuration the waits are 1 s, 2 s, 4 s, 8 s, 16 s, then 30 s.
pub proof fn lemma_default_backoff(retry: nat)
    requires
        retry < DEFAULT_MAX_RETRIES,
    ensures
        retry <= 4 ==> backoff_spec(1000, 30000, retry) == 1000 * pow2(retry),
        retry >= 5 ==> backoff_spec(1000, 30000, retry) == 30000,
{
    reveal_with_fuel(pow2, 6);
    if retry >= 5 {
        lemma_pow2_mono(5, retry);
    }
}

/// What a streaming service sends back.
#[derive(Debug, Clone, PartialEq, Eq)]
pub enum StreamResponse {
    PartialTranscript { text: String, timestamp: Option<u64> },
    FinalTranscript { text: String, timestamp: Option<u64> },
    Error { message: String },
}

pub open spec fn ts_or_zero(t: Option<u64>) -> u64 {
    match t {
        Some(v) => v,
        None => 0,
    }
}

/// The event for a service response: transcripts with empty text are dropped, a
/// missing timestamp counts as zero.
pub open spec fn response_event_spec(r: StreamResponse) -> Option<EventView> {
    match r {
        StreamResponse::PartialTranscript { text, timestamp } => if text@.len() == 0 {
            None
        } else {
            Some(EventView::Partial { text: text@, timestamp_ms: ts_or_zero(timestamp) })
        },
        StreamResponse::FinalTranscript { text, timestamp } => if text@.len() == 0 {
            None
        } else {
            Some(EventView::Committed { text: text@, timestamp_ms: ts_or_zero(timestamp) })
        },
        StreamResponse::Error { message } => Some(EventView::Error { message: message@ }),
    }
}

pub open spec fn event_option_view(e: Option<TranscriptionEvent>) -> Option<EventView> {
    match e {
        Some(ev) => Some(ev@),
        None => None,
    }
}

/// Maps a service response to the transcription event it stands for.
pub fn response_to_event(response: StreamResponse) -> (r: Option<TranscriptionEvent>)
    ensures
        event_option_view(r) == response_event_spec(response),
{
    match response {
        StreamResponse::PartialTranscript { text, timestamp } => {
            if text.as_str().unicode_len() == 0 {
                None
            } else {
                let ts = match timestamp {
                    Some(v) => v,
                    None => 0,
                };
                Some(TranscriptionEvent::Partial { text, timestamp_ms: ts })
            }
        },
        StreamResponse::FinalTranscript { text, timestamp } => {
            if text.as_str().unicode_len() == 0 {
                None
            } else {
                let ts = match timestamp {
                    Some(v) => v,
                    None => 0,
                };
                Some(TranscriptionEvent::Committed { text, timestamp_ms: ts })
            }
        },
        StreamResponse::Error { message } => Some(TranscriptionEvent::Error { message }),
    }
}

/// What the standard, padded base64 encoding makes of some bytes.
pub uninterp spec fn base64_of(b: Seq<u8>) -> Seq<char>;

/// Relies on `base64::engine::general_purpose::STANDARD.encode`: the padded
/// standard-alphabet encoding, a function of the bytes alone.
#[verifier::external_body]
fn base64_encode(bytes: &Vec<u8>) -> (r: String)
    requires
        bytes@.len() <= usize::MAX / 2,
    ensures
        r@ == base64_of(bytes@),
{
    base64::engine::general_purpose::STANDARD.encode(bytes)
}

pub const AUDIO_MESSAGE_HEAD: &'static str = "{\"type\":\"audio\",\"audio_base64\":\"";
pub const AUDIO_MESSAGE_TAIL: &'static str = "\"}";

/// The text frame that carries one chunk of audio: a JSON object of type `audio`
/// whose `audio_base64` field holds the chunk as a 16 kHz WAV file in base64.
pub open spec fn audio_message_spec(samples: Seq<i16>) -> Seq<char> {
    AUDIO_MESSAGE_HEAD@ + base64_of(wav_spec(samples, CHUNK_SAMPLE_RATE)) + AUDIO_MESSAGE_TAIL@
}

/// Frames a chunk of audio for the streaming service.
pub fn audio_message(samples: &[i16]) -> (r: String)
    requires
        wav_fits(samples@.len(), CHUNK_SAMPLE_RATE as nat),
        samples@.len() <= usize::MAX / 8,
    ensures
        r@ == audio_message_spec(samples@),
{
    let wav = encode_wav(samples, CHUNK_SAMPLE_RATE);
    proof {
        lemma_pcm_len(samples@);
        assert(crate::wav::wav_header(samples@.len(), CHUNK_SAMPLE_RATE).len() == 44);
        assert(wav@.len() == 44 + 2 * samples@.len());
    }
    let b64 = base64_encode(&wav);
    String::from_str(AUDIO_MESSAGE_HEAD).concat(b64.as_str()).concat(AUDIO_MESSAGE_TAIL)
}

proof fn lemma_pcm_len(s: Seq<i16>)
    ensures
        crate::wav::pcm_bytes(s).len() == 2 * s.len(),
    decreases s.len(),
{
    if s.len() > 0 {
        lemma_pcm_len(s.drop_last());
    }
}

// ---------------------------------------------------------------------------
// Batch provider: chunked uploads and their running transcript
// ---------------------------------------------------------------------------

/// The duration of an upload chunk for the batch services.
pub const BATCH_CHUNK_MS: u64 = 3000;

/// The running transcript after one more chunk's text: non-blank text is
/// appended, separated by a space.
pub open spec fn extend_transcript(acc: Seq<char>, text: Seq<char>) -> Seq<char> {
    if trim_spec(text).len() > 0 {
        join_space(acc, text)
    } else {
        acc
    }
}

/// The decisions of a batch transcription session: when to upload, what to
/// report for each upload, and the final committed text.
pub struct BatchSession {
    chunker: AudioChunker,
    accumulated: String,
    last_timestamp_ms: u64,
}

pub struct BatchView {
    pub buffer: Seq<i16>,
    pub last_flush_ms: u64,
    pub marked: bool,
    pub chunk_duration_ms: u64,
    pub accumulated: Seq<char>,
    pub last_timestamp_ms: u64,
}

impl View for BatchSession {
    type V = BatchView;

    closed spec fn view(&self) -> BatchView {
        BatchView {
            buffer: self.chunker@.buffer,
            last_flush_ms: self.chunker@.last_flush_ms,
            marked: self.chunker@.marked,
            chunk_duration_ms: self.chunker@.chunk_duration_ms,
            accumulated: self.accumulated@,
            last_timestamp_ms: self.last_timestamp_ms,
        }
    }
}

impl BatchSession {
    pub closed spec fn wf(&self) -> bool {
        self.chunker@.sample_rate == CHUNK_SAMPLE_RATE
    }

    pub fn new(chunk_duration_ms: u64) -> (r: Self)
        ensures
            r.wf(),
            r@.buffer.len() == 0,
            r@.last_flush_ms == 0,
            !r@.marked,
            r@.chunk_duration_ms == chunk_duration_ms,
            r@.accumulated.len() == 0,
            r@.last_timestamp_ms == 0,
    {
        BatchSession {
            chunker: AudioChunker::new(chunk_duration_ms),
            accumulated: String::new(),
            last_timestamp_ms: 0,
        }
    }

    /// Buffers a chunk of audio. When a chunk duration has passed, returns the
    /// buffered audio as a WAV file to upload and empties the buffer.
    pub fn push_audio(&mut self, chunk: &AudioChunk) -> (r: Option<Vec<u8>>)
        requires
            old(self).wf(),
        ensures
            final(self).wf(),
            final(self)@.last_timestamp_ms == chunk.timestamp_ms,
            final(self)@.accumulated == old(self)@.accumulated,
            final(self)@.chunk_duration_ms == old(self)@.chunk_duration_ms,
            ({
                let buf = old(self)@.buffer + chunk.data@;
                let mark = if !old(self)@.marked {
                    chunk.timestamp_ms
                } else {
                    old(self)@.last_flush_ms
                };
                let due = buf.len() > 0 && (if chunk.timestamp_ms >= mark {
                    chunk.timestamp_ms - mark
                } else {
                    0
                }) >= old(self)@.chunk_duration_ms;
                &&& !due ==> r is None && final(self)@.buffer == buf && final(self)@.last_flush_ms
                    == mark && final(self)@.marked
                &&& due ==> final(self)@.buffer.len() == 0 && final(self)@.last_flush_ms == 0
                    && !final(self)@.marked
                &&& (due && wav_fits(buf.len(), CHUNK_SAMPLE_RATE as nat)) ==> (r matches Some(b)
                    && b@ == wav_spec(buf, CHUNK_SAMPLE_RATE))
                &&& (due && !wav_fits(buf.len(), CHUNK_SAMPLE_RATE as nat)) ==> r is None
            }),
    {
        self.last_timestamp_ms = chunk.timestamp_ms;
        self.chunker.add_chunk(chunk);
        if self.chunker.should_flush(chunk.timestamp_ms) {
            match self.chunker.flush() {
                Ok(bytes) => {
                    proof {
                        assert(bytes@ == wav_spec(old(self)@.buffer + chunk.data@, CHUNK_SAMPLE_RATE));
                    }
                    Some(bytes)
                },
                Err(_) => None,
            }
        } else {
            None
        }
    }

    /// Takes the outcome of one upload. Returns the event to report: the whole
    /// transcript so far as a partial when the text is not blank, an error when the
    /// upload failed (the session goes on), nothing otherwise.
    pub fn on_upload(&mut self, outcome: Result<String, String>) -> (r: Option<TranscriptionEvent>)
        ensures
            final(self).wf() == old(self).wf(),
            final(self)@.buffer == old(self)@.buffer,
            final(self)@.last_flush_ms == old(self)@.last_flush_ms,
            final(self)@.marked == old(self)@.marked,
            final(self)@.chunk_duration_ms == old(self)@.chunk_duration_ms,
            final(self)@.last_timestamp_ms == old(self)@.last_timestamp_ms,
            match outcome {
                Ok(t) => {
                    &&& final(self)@.accumulated == extend_transcript(old(self)@.accumulated, t@)
                    &&& trim_spec(t@).len() > 0 ==> event_option_view(r) == Some(
                        EventView::Partial {
                            text: final(self)@.accumulated,
                            timestamp_ms: old(self)@.last_timestamp_ms,
                        },
                    )
                    &&& trim_spec(t@).len() == 0 ==> r is None
                },
                Err(m) => {
                    &&& final(self)@.accumulated == old(self)@.accumulated
                    &&& event_option_view(r) == Some(EventView::Error { message: m@ })
                },
            },
    {
        match outcome {
            Ok(t) => {
                let tt = trim(t.as_str());
                if tt.as_str().unicode_len() > 0 {
                    self.accumulated = join_with_space(self.accumulated.as_str(), t.as_str());
                    Some(
                        TranscriptionEvent::Partial {
                            text: self.accumulated.clone(),
                            timestamp_ms: self.last_timestamp_ms,
                        },
                    )
                } else {
                    None
                }
            },
            Err(m) => Some(TranscriptionEvent::Error { message: m }),
        }
    }

    /// At the end of the audio: the rest of the buffer as a WAV file to upload,
    /// if any audio is left.
    pub fn finish_audio(&mut self) -> (r: Option<Vec<u8>>)
        requires
            old(self).wf(),
        ensures
            final(self).wf(),
            final(self)@.buffer.len() == 0,
            !final(self)@.marked,
            final(self)@.accumulated == old(self)@.accumulated,
            final(self)@.last_timestamp_ms == old(self)@.last_timestamp_ms,
            (old(self)@.buffer.len() > 0 && wav_fits(
                old(self)@.buffer.len(),
                CHUNK_SAMPLE_RATE as nat,
            )) ==> (r matches Some(b) && b@ == wav_spec(old(self)@.buffer, CHUNK_SAMPLE_RATE)),
            !(old(self)@.buffer.len() > 0 && wav_fits(
                old(self)@.buffer.len(),
                CHUNK_SAMPLE_RATE as nat,
            )) ==> r is None,
    {
        let had = self.chunker.buffer_size() > 0;
        match self.chunker.flush() {
            Ok(bytes) => if had {
                Some(bytes)
            } else {
                None
            },
            Err(_) => None,
        }
    }

    /// Closes the session with the outcome of the last upload, if one was made.
    /// Returns the single committed event with the whole transcript, or nothing
    /// when it is blank. A failed last upload is left out.
    pub fn finish(&mut self, last: Option<Result<String, String>>) -> (r: Option<TranscriptionEvent>)
        ensures
            final(self)@.accumulated == (match last {
                Some(Ok(t)) => extend_transcript(old(self)@.accumulated, t@),
                _ => old(self)@.accumulated,
            }),
            trim_spec(final(self)@.accumulated).len() > 0 ==> event_option_view(r) == Some(
                EventView::Committed {
                    text: final(self)@.accumulated,
                    timestamp_ms: old(self)@.last_timestamp_ms,
                },
            ),
            trim_spec(final(self)@.accumulated).len() == 0 ==> r is None,
    {
        match last {
            Some(Ok(t)) => {
                let tt = trim(t.as_str());
                if tt.as_str().unicode_len() > 0 {
                    self.accumulated = join_with_space(self.accumulated.as_str(), t.as_str());
                }
            },
            _ => {},
        }
        let all = trim(self.accumulated.as_str());
        if all.as_str().unicode_len() > 0 {
            Some(
                TranscriptionEvent::Committed {
                    text: self.accumulated.clone(),
                    timestamp_ms: self.last_timestamp_ms,
                },
            )
        } else {
            None
        }
    }
}

} // verus!
