use vstd::prelude::*;
use vstd::string::*;

verus! {

/// A block of 16 kHz mono PCM with its offset from the start of the session.
#[derive(Debug, Clone)]
pub struct AudioChunk {
    pub data: Vec<i16>,
    pub timestamp_ms: u64,
}

/// What a speech-to-text provider reports.
#[derive(Debug, Clone, PartialEq, Eq)]
pub enum TranscriptionEvent {
    /// Interim text, which later events may revise.
    Partial { text: String, timestamp_ms: u64 },
    /// Final text for a stretch of speech.
    Committed { text: String, timestamp_ms: u64 },
    Error { message: String },
}

pub enum EventView {
    Partial { text: Seq<char>, timestamp_ms: u64 },
    Committed { text: Seq<char>, timestamp_ms: u64 },
    Error { message: Seq<char> },
}

impl View for TranscriptionEvent {
    type V = EventView;

    open spec fn view(&self) -> EventView {
        match self {
            TranscriptionEvent::Partial { text, timestamp_ms } => EventView::Partial {
                text: text@,
                timestamp_ms: *timestamp_ms,
            },
            TranscriptionEvent::Committed { text, timestamp_ms } => EventView::Committed {
                text: text@,
                timestamp_ms: *timestamp_ms,
            },
            TranscriptionEvent::Error { message } => EventView::Error { message: message@ },
        }
    }
}

/// `a` and `b` joined by one space; `b` alone when `a` is empty.
pub open spec fn join_space(a: Seq<char>, b: Seq<char>) -> Seq<char> {
    if a.len() == 0 {
        b
    } else {
        a + seq![' '] + b
    }
}

/// What a consumer of transcription events has gathered so far.
pub struct TranscriptView {
    pub committed: Seq<char>,
    pub last_partial: Seq<char>,
    pub last_timestamp: u64,
    pub stopped: bool,
}

pub open spec fn initial_transcript() -> TranscriptView {
    TranscriptView {
        committed: Seq::empty(),
        last_partial: Seq::empty(),
        last_timestamp: 0,
        stopped: false,
    }
}

/// One event: a non-empty partial is remembered, a non-empty committed text is
/// appended, an error ends the consumption; after that nothing changes.
pub open spec fn transcript_step(v: TranscriptView, e: EventView) -> TranscriptView {
    if v.stopped {
        v
    } else {
        match e {
            EventView::Partial { text, timestamp_ms } => TranscriptView {
                last_partial: if text.len() > 0 { text } else { v.last_partial },
                last_timestamp: timestamp_ms,
                ..v
            },
            EventView::Committed { text, timestamp_ms } => TranscriptView {
                committed: if text.len() > 0 { join_space(v.committed, text) } else { v.committed },
                last_timestamp: timestamp_ms,
                ..v
            },
            EventView::Error { .. } => TranscriptView { stopped: true, ..v },
        }
    }
}

/// The state after a whole sequence of events.
pub open spec fn transcript_after(events: Seq<EventView>) -> TranscriptView
    decreases events.len(),
{
    if events.len() == 0 {
        initial_transcript()
    } else {
        transcript_step(transcript_after(events.drop_last()), events.last())
    }
}

/// The transcription of a session: the committed texts, or, when none came,
/// the last non-empty partial.
pub open spec fn final_text_of(v: TranscriptView) -> Seq<char> {
    if v.committed.len() == 0 && v.last_partial.len() > 0 {
        v.last_partial
    } else {
        v.committed
    }
}

/// Gathers a session's transcription events into its final text.
pub struct TranscriptAccumulator {
    committed: String,
    last_partial: String,
    last_timestamp: u64,
    stopped: bool,
}

impl View for TranscriptAccumulator {
    type V = TranscriptView;

    closed spec fn view(&self) -> TranscriptView {
        TranscriptView {
            committed: self.committed@,
            last_partial: self.last_partial@,
            last_timestamp: self.last_timestamp,
            stopped: self.stopped,
        }
    }
}

/// `a` and `b` joined by one space; `b` alone when `a` is empty.
pub fn join_with_space(a: &str, b: &str) -> (r: String)
    ensures
        r@ == join_space(a@, b@),
{
    if a.unicode_len() == 0 {
        String::from_str(b)
    } else {
        let r = String::from_str(a).concat(" ").concat(b);
        proof {
            assert(" "@ =~= seq![' ']) by {
                reveal_strlit(" ");
            }
        }
        r
    }
}

impl TranscriptAccumulator {
    pub fn new() -> (r: Self)
        ensures
            r@ == initial_transcript(),
    {
        TranscriptAccumulator {
            committed: String::new(),
            last_partial: String::new(),
            last_timestamp: 0,
            stopped: false,
        }
    }

    /// Takes one event; returns whether further events are to be consumed.
    pub fn accept(&mut self, event: &TranscriptionEvent) -> (keep_going: bool)
        ensures
            final(self)@ == transcript_step(old(self)@, event@),
            keep_going == !final(self)@.stopped,
    {
        if self.stopped {
            return false;
        }
        match event {
            TranscriptionEvent::Partial { text, timestamp_ms } => {
                if text.as_str().unicode_len() > 0 {
                    self.last_partial = text.clone();
                }
                self.last_timestamp = *timestamp_ms;
            },
            TranscriptionEvent::Committed { text, timestamp_ms } => {
                if text.as_str().unicode_len() > 0 {
                    self.committed = join_with_space(self.committed.as_str(), text.as_str());
                }
                self.last_timestamp = *timestamp_ms;
            },
            TranscriptionEvent::Error { .. } => {
                self.stopped = true;
            },
        }
        !self.stopped
    }

    /// The session's transcription, with the fallback to the last partial.
    pub fn final_text(&self) -> (r: String)
        ensures
            r@ == final_text_of(self@),
    {
        if self.committed.as_str().unicode_len() == 0 && self.last_partial.as_str().unicode_len() > 0 {
            self.last_partial.clone()
        } else {
            self.committed.clone()
        }
    }

    pub fn last_timestamp(&self) -> (r: u64)
        ensures
            r == self@.last_timestamp,
    {
        self.last_timestamp
    }
}

/// A stream that carries no committed text but some non-empty partials yields
/// the last non-empty partial as its transcription.
pub proof fn lemma_fallback_to_last_partial(events: Seq<EventView>, k: int)
    requires
        0 <= k < events.len(),
        forall|j: int| 0 <= j < events.len() ==> !(#[trigger] events[j] is Committed),
        forall|j: int| 0 <= j < events.len() ==> !(#[trigger] events[j] is Error),
        events[k] matches EventView::Partial { text, .. } && text.len() > 0,
        forall|j: int|
            k < j < events.len() ==> (#[trigger] events[j] matches EventView::Partial { text, .. }
                && text.len() == 0),
    ensures
        final_text_of(transcript_after(events)) == events[k]->Partial_text,
    decreases events.len(),
{
    lemma_no_commit_no_stop(events);
    if k < events.len() - 1 {
        let prev = events.drop_last();
        assert forall|j: int| 0 <= j < prev.len() implies !(#[trigger] prev[j] is Committed) by {
            assert(prev[j] == events[j]);
        }
        assert forall|j: int| 0 <= j < prev.len() implies !(#[trigger] prev[j] is Error) by {
            assert(prev[j] == events[j]);
        }
        assert forall|j: int| k < j < prev.len() implies (#[trigger] prev[j] matches EventView::Partial { text, .. }
            && text.len() == 0) by {
            assert(prev[j] == events[j]);
        }
        lemma_fallback_to_last_partial(prev, k);
        lemma_no_commit_no_stop(prev);
    } else {
        lemma_no_commit_no_stop(events.drop_last());
    }
}

/// Without committed or error events nothing is committed and nothing stops.
pub proof fn lemma_no_commit_no_stop(events: Seq<EventView>)
    requires
        forall|j: int| 0 <= j < events.len() ==> !(#[trigger] events[j] is Committed),
        forall|j: int| 0 <= j < events.len() ==> !(#[trigger] events[j] is Error),
    ensures
        transcript_after(events).committed.len() == 0,
        !transcript_after(events).stopped,
    decreases events.len(),
{
    if events.len() > 0 {
        let prev = events.drop_last();
        assert forall|j: int| 0 <= j < prev.len() implies !(#[trigger] prev[j] is Committed) by {
            assert(prev[j] == events[j]);
        }
        assert forall|j: int| 0 <= j < prev.len() implies !(#[trigger] prev[j] is Error) by {
            assert(prev[j] == events[j]);
        }
        lemma_no_commit_no_stop(prev);
        assert(!(events[events.len() - 1] is Committed));
        assert(!(events[events.len() - 1] is Error));
    }
}

} // verus!
