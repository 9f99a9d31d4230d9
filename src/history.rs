use crate::dictionary::{copy_option, opt_view};
use crate::text::{contains, contains_spec, lower_of, lowercase};
use vstd::prelude::*;
use vstd::string::*;

verus! {

pub const DEFAULT_MAX_ENTRIES: usize = 500;

/// One completed dictation.
#[derive(Debug, Clone)]
pub struct HistoryEntry {
    /// Unique identifier (the completion time in milliseconds, as text).
    pub id: String,
    /// The processed text that was delivered.
    pub final_text: String,
    /// The transcription before processing.
    pub raw_text: Option<String>,
    pub timestamp_ms: u64,
    pub processing_time_ms: u64,
    /// The voice command used, if any.
    pub command_name: Option<String>,
}

pub struct HistoryView {
    pub id: Seq<char>,
    pub final_text: Seq<char>,
    pub raw_text: Option<Seq<char>>,
    pub timestamp_ms: u64,
    pub processing_time_ms: u64,
    pub command_name: Option<Seq<char>>,
}

impl View for HistoryEntry {
    type V = HistoryView;

    open spec fn view(&self) -> HistoryView {
        HistoryView {
            id: self.id@,
            final_text: self.final_text@,
            raw_text: opt_view(self.raw_text),
            timestamp_ms: self.timestamp_ms,
            processing_time_ms: self.processing_time_ms,
            command_name: opt_view(self.command_name),
        }
    }
}

pub open spec fn history_view(v: Seq<HistoryEntry>) -> Seq<HistoryView> {
    v.map_values(|e: HistoryEntry| e@)
}

pub open spec fn opt_contains(o: Option<Seq<char>>, q: Seq<char>) -> bool {
    match o {
        Some(t) => contains_spec(lower_of(t), q),
        None => false,
    }
}

/// Whether a lower-cased query occurs in the lower-cased final text, raw text or
/// command name of an entry.
pub open spec fn history_matches(e: HistoryView, q: Seq<char>) -> bool {
    contains_spec(lower_of(e.final_text), q) || opt_contains(e.raw_text, q) || opt_contains(
        e.command_name,
        q,
    )
}

pub open spec fn matching_history(s: Seq<HistoryView>, q: Seq<char>) -> Seq<HistoryView>
    decreases s.len(),
{
    if s.len() == 0 {
        Seq::empty()
    } else if history_matches(s.last(), q) {
        matching_history(s.drop_last(), q).push(s.last())
    } else {
        matching_history(s.drop_last(), q)
    }
}

/// Index of the first entry with identifier `id`.
pub open spec fn id_index(s: Seq<HistoryView>, id: Seq<char>) -> Option<int>
    decreases s.len(),
{
    if s.len() == 0 {
        None
    } else if s[0].id == id {
        Some(0)
    } else {
        match id_index(s.drop_first(), id) {
            Some(i) => Some(i + 1),
            None => None,
        }
    }
}

proof fn lemma_id_index_found(s: Seq<HistoryView>, id: Seq<char>, k: int)
    requires
        0 <= k < s.len(),
        s[k].id == id,
        forall|q: int| 0 <= q < k ==> s[q].id != id,
    ensures
        id_index(s, id) == Some(k),
    decreases k,
{
    if k > 0 {
        lemma_id_index_found(s.drop_first(), id, k - 1);
    }
}

proof fn lemma_id_index_none(s: Seq<HistoryView>, id: Seq<char>)
    requires
        forall|q: int| 0 <= q < s.len() ==> s[q].id != id,
    ensures
        id_index(s, id) is None,
    decreases s.len(),
{
    if s.len() > 0 {
        lemma_id_index_none(s.drop_first(), id);
    }
}

/// The capacity of a history read without one.
pub fn default_max_entries() -> (r: usize)
    ensures
        r == DEFAULT_MAX_ENTRIES,
{
    DEFAULT_MAX_ENTRIES
}

fn opt_matches(o: &Option<String>, lowered_query: &str) -> (r: bool)
    ensures
        r == opt_contains(opt_view(*o), lowered_query@),
{
    match o {
        Some(t) => {
            let l = lowercase(t.as_str());
            contains(l.as_str(), lowered_query)
        },
        None => false,
    }
}

impl HistoryEntry {
    /// A copy with the same contents.
    pub fn duplicate(&self) -> (r: Self)
        ensures
            r@ == self@,
    {
        HistoryEntry {
            id: self.id.clone(),
            final_text: self.final_text.clone(),
            raw_text: copy_option(&self.raw_text),
            timestamp_ms: self.timestamp_ms,
            processing_time_ms: self.processing_time_ms,
            command_name: copy_option(&self.command_name),
        }
    }

    /// Whether the lower-cased `query` occurs in this entry, each field lower-cased.
    pub fn matches_lowered(&self, lowered_query: &str) -> (r: bool)
        ensures
            r == history_matches(self@, lowered_query@),
    {
        let f = lowercase(self.final_text.as_str());
        contains(f.as_str(), lowered_query) || opt_matches(&self.raw_text, lowered_query)
            || opt_matches(&self.command_name, lowered_query)
    }
}

/// The dictations made so far, newest first, at most `max_entries` of them.
#[derive(Debug, Clone)]
pub struct TranscriptionHistory {
    pub entries: Vec<HistoryEntry>,
    pub max_entries: usize,
}

impl TranscriptionHistory {
    pub open spec fn entries_spec(&self) -> Seq<HistoryView> {
        history_view(self.entries@)
    }

    pub fn new() -> (r: Self)
        ensures
            r.entries@.len() == 0,
            r.max_entries == DEFAULT_MAX_ENTRIES,
    {
        TranscriptionHistory { entries: Vec::new(), max_entries: DEFAULT_MAX_ENTRIES }
    }

    /// Puts `entry` first and drops the oldest entries beyond the capacity.
    pub fn add_entry(&mut self, entry: HistoryEntry)
        ensures
            final(self).max_entries == old(self).max_entries,
            ({
                let all = seq![entry] + old(self).entries@;
                final(self).entries@ == if all.len() > old(self).max_entries {
                    all.take(old(self).max_entries as int)
                } else {
                    all
                }
            }),
    {
        let ghost all = seq![entry] + self.entries@;
        self.entries.insert(0, entry);
        proof {
            assert(self.entries@ =~= all);
        }
        if self.entries.len() > self.max_entries {
            self.entries.truncate(self.max_entries);
            proof {
                assert(self.entries@ =~= all.take(self.max_entries as int));
            }
        }
    }

    fn position_of(&self, id: &str) -> (r: Option<usize>)
        ensures
            r matches Some(k) ==> id_index(self.entries_spec(), id@) == Some(k as int) && k
                < self.entries@.len(),
            r is None ==> id_index(self.entries_spec(), id@) is None,
    {
        let wanted = String::from_str(id);
        let mut k: usize = 0;
        while k < self.entries.len()
            invariant
                k <= self.entries@.len(),
                wanted@ == id@,
                forall|q: int| 0 <= q < k ==> self.entries_spec()[q].id != id@,
            decreases self.entries@.len() - k,
        {
            if self.entries[k].id == wanted {
                proof {
                    lemma_id_index_found(self.entries_spec(), id@, k as int);
                }
                return Some(k);
            }
            k = k + 1;
        }
        proof {
            lemma_id_index_none(self.entries_spec(), id@);
        }
        None
    }

    /// Removes the first entry with identifier `id`; returns whether there was one.
    pub fn delete_entry(&mut self, id: &str) -> (r: bool)
        ensures
            r == id_index(old(self).entries_spec(), id@) is Some,
            r ==> final(self).entries@ == old(self).entries@.remove(
                id_index(old(self).entries_spec(), id@)->Some_0,
            ),
            !r ==> final(self).entries@ == old(self).entries@,
            final(self).max_entries == old(self).max_entries,
    {
        match self.position_of(id) {
            Some(k) => {
                self.entries.remove(k);
                true
            },
            None => false,
        }
    }

    pub fn clear(&mut self)
        ensures
            final(self).entries@.len() == 0,
            final(self).max_entries == old(self).max_entries,
    {
        self.entries.clear();
    }

    /// The entries whose final text, raw text or command name hold `query`,
    /// compared in lower case; all entries for an empty query.
    pub fn search_entries(&self, query: &str) -> (r: Vec<HistoryEntry>)
        ensures
            query@.len() == 0 ==> history_view(r@) == self.entries_spec(),
            query@.len() > 0 ==> history_view(r@) == matching_history(
                self.entries_spec(),
                lower_of(query@),
            ),
    {
        let all = query.unicode_len() == 0;
        let q = lowercase(query);
        let mut out: Vec<HistoryEntry> = Vec::new();
        let mut k: usize = 0;
        while k < self.entries.len()
            invariant
                k <= self.entries@.len(),
                all == (query@.len() == 0),
                q@ == lower_of(query@),
                all ==> history_view(out@) == self.entries_spec().subrange(0, k as int),
                !all ==> history_view(out@) == matching_history(
                    self.entries_spec().subrange(0, k as int),
                    q@,
                ),
            decreases self.entries@.len() - k,
        {
            let ghost pre = self.entries_spec().subrange(0, k as int);
            let ghost next = self.entries_spec().subrange(0, k + 1);
            proof {
                assert(next.drop_last() =~= pre);
                assert(next.last() == self.entries@[k as int]@);
            }
            if all || self.entries[k].matches_lowered(q.as_str()) {
                let ghost before = out@;
                out.push(self.entries[k].duplicate());
                proof {
                    assert(history_view(out@) =~= history_view(before).push(self.entries@[k as int]@));
                    if all {
                        assert(history_view(out@) =~= next);
                    }
                }
            }
            k = k + 1;
        }
        proof {
            assert(self.entries_spec().subrange(0, self.entries@.len() as int) =~= self.entries_spec());
        }
        out
    }
}

impl Default for TranscriptionHistory {
    fn default() -> (r: Self)
        ensures
            r.entries@.len() == 0,
            r.max_entries == DEFAULT_MAX_ENTRIES,
    {
        TranscriptionHistory::new()
    }
}

} // verus!
