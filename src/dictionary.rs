use crate::commands::strings_view;
use crate::text::{contains, contains_spec, lower_of, lowercase};
use vstd::prelude::*;
use vstd::string::*;

verus! {

/// A custom term with the spellings that stand for it.
#[derive(Debug, Clone)]
pub struct DictionaryEntry {
    /// The correct term.
    pub term: String,
    /// Aliases or common misspellings.
    pub aliases: Vec<String>,
    pub description: Option<String>,
}

pub struct EntryView {
    pub term: Seq<char>,
    pub aliases: Seq<Seq<char>>,
    pub description: Option<Seq<char>>,
}

pub open spec fn opt_view(o: Option<String>) -> Option<Seq<char>> {
    match o {
        Some(s) => Some(s@),
        None => None,
    }
}

impl View for DictionaryEntry {
    type V = EntryView;

    open spec fn view(&self) -> EntryView {
        EntryView {
            term: self.term@,
            aliases: strings_view(self.aliases@),
            description: opt_view(self.description),
        }
    }
}

pub open spec fn entries_view(v: Seq<DictionaryEntry>) -> Seq<EntryView> {
    v.map_values(|e: DictionaryEntry| e@)
}

/// Whether a lower-cased query occurs in the lower-cased term, an alias or the
/// description of an entry.
pub open spec fn entry_matches(e: EntryView, q: Seq<char>) -> bool {
    contains_spec(lower_of(e.term), q) || (exists|i: int|
        0 <= i < e.aliases.len() && contains_spec(lower_of(#[trigger] e.aliases[i]), q)) || (
    match e.description {
        Some(d) => contains_spec(lower_of(d), q),
        None => false,
    })
}

/// The entries that match `q`, in their order.
pub open spec fn matching_entries(s: Seq<EntryView>, q: Seq<char>) -> Seq<EntryView>
    decreases s.len(),
{
    if s.len() == 0 {
        Seq::empty()
    } else if entry_matches(s.last(), q) {
        matching_entries(s.drop_last(), q).push(s.last())
    } else {
        matching_entries(s.drop_last(), q)
    }
}

/// Index of the first entry whose term is `t`.
pub open spec fn term_index(s: Seq<EntryView>, t: Seq<char>) -> Option<int>
    decreases s.len(),
{
    if s.len() == 0 {
        None
    } else if s[0].term == t {
        Some(0)
    } else {
        match term_index(s.drop_first(), t) {
            Some(i) => Some(i + 1),
            None => None,
        }
    }
}

proof fn lemma_term_index_found(s: Seq<EntryView>, t: Seq<char>, k: int)
    requires
        0 <= k < s.len(),
        s[k].term == t,
        forall|q: int| 0 <= q < k ==> s[q].term != t,
    ensures
        term_index(s, t) == Some(k),
    decreases k,
{
    if k > 0 {
        lemma_term_index_found(s.drop_first(), t, k - 1);
    }
}

proof fn lemma_term_index_none(s: Seq<EntryView>, t: Seq<char>)
    requires
        forall|q: int| 0 <= q < s.len() ==> s[q].term != t,
    ensures
        term_index(s, t) is None,
    decreases s.len(),
{
    if s.len() > 0 {
        lemma_term_index_none(s.drop_first(), t);
    }
}

/// A copy of a list of strings.
pub fn copy_strings(v: &Vec<String>) -> (r: Vec<String>)
    ensures
        r@ == v@,
{
    let mut out: Vec<String> = Vec::with_capacity(v.len());
    let mut k: usize = 0;
    while k < v.len()
        invariant
            k <= v@.len(),
            out@ == v@.subrange(0, k as int),
        decreases v@.len() - k,
    {
        out.push(v[k].clone());
        k = k + 1;
        proof {
            assert(out@ =~= v@.subrange(0, k as int));
        }
    }
    proof {
        assert(v@.subrange(0, v@.len() as int) =~= v@);
    }
    out
}

pub fn copy_option(o: &Option<String>) -> (r: Option<String>)
    ensures
        r == *o,
{
    match o {
        Some(s) => Some(s.clone()),
        None => None,
    }
}

impl DictionaryEntry {
    /// A copy with the same texts.
    pub fn duplicate(&self) -> (r: Self)
        ensures
            r@ == self@,
    {
        DictionaryEntry {
            term: self.term.clone(),
            aliases: copy_strings(&self.aliases),
            description: copy_option(&self.description),
        }
    }

    /// Whether the lower-cased `query` occurs in this entry, each field lower-cased.
    pub fn matches_lowered(&self, lowered_query: &str) -> (r: bool)
        ensures
            r == entry_matches(self@, lowered_query@),
    {
        let t = lowercase(self.term.as_str());
        if contains(t.as_str(), lowered_query) {
            return true;
        }
        let mut k: usize = 0;
        while k < self.aliases.len()
            invariant
                k <= self.aliases@.len(),
                forall|i: int|
                    0 <= i < k ==> !contains_spec(lower_of(#[trigger] self.aliases@[i]@), lowered_query@),
            decreases self.aliases@.len() - k,
        {
            let a = lowercase(self.aliases[k].as_str());
            if contains(a.as_str(), lowered_query) {
                proof {
                    assert(strings_view(self.aliases@)[k as int] == self.aliases@[k as int]@);
                    assert(contains_spec(lower_of(strings_view(self.aliases@)[k as int]), lowered_query@));
                    assert(self@.aliases.len() == self.aliases@.len());
                    assert(self@.aliases[k as int] == strings_view(self.aliases@)[k as int]);
                    assert(entry_matches(self@, lowered_query@));
                }
                return true;
            }
            k = k + 1;
        }
        proof {
            assert forall|i: int|
                0 <= i < strings_view(self.aliases@).len() implies !contains_spec(
                lower_of(#[trigger] strings_view(self.aliases@)[i]),
                lowered_query@,
            ) by {
                assert(strings_view(self.aliases@)[i] == self.aliases@[i]@);
            }
        }
        match &self.description {
            Some(d) => {
                let dl = lowercase(d.as_str());
                contains(dl.as_str(), lowered_query)
            },
            None => false,
        }
    }
}

/// The user's custom terms, consulted when transcripts are cleaned up.
#[derive(Debug, Clone)]
pub struct PersonalDictionary {
    pub entries: Vec<DictionaryEntry>,
}

impl PersonalDictionary {
    pub open spec fn entries_spec(&self) -> Seq<EntryView> {
        entries_view(self.entries@)
    }

    pub fn new() -> (r: Self)
        ensures
            r.entries@.len() == 0,
    {
        PersonalDictionary { entries: Vec::new() }
    }

    pub fn add_entry(&mut self, entry: DictionaryEntry)
        ensures
            final(self).entries@ == old(self).entries@.push(entry),
    {
        self.entries.push(entry);
    }

    fn position_of(&self, term: &str) -> (r: Option<usize>)
        ensures
            r matches Some(k) ==> term_index(self.entries_spec(), term@) == Some(k as int) && k
                < self.entries@.len(),
            r is None ==> term_index(self.entries_spec(), term@) is None,
    {
        let wanted = String::from_str(term);
        let mut k: usize = 0;
        while k < self.entries.len()
            invariant
                k <= self.entries@.len(),
                wanted@ == term@,
                forall|q: int| 0 <= q < k ==> self.entries_spec()[q].term != term@,
            decreases self.entries@.len() - k,
        {
            if self.entries[k].term == wanted {
                proof {
                    lemma_term_index_found(self.entries_spec(), term@, k as int);
                }
                return Some(k);
            }
            k = k + 1;
        }
        proof {
            lemma_term_index_none(self.entries_spec(), term@);
        }
        None
    }

    /// Replaces the first entry whose term is `old_term`; returns whether there was one.
    pub fn update_entry(&mut self, old_term: &str, new_entry: DictionaryEntry) -> (r: bool)
        ensures
            r == term_index(old(self).entries_spec(), old_term@) is Some,
            r ==> final(self).entries@ == old(self).entries@.update(
                term_index(old(self).entries_spec(), old_term@)->Some_0,
                new_entry,
            ),
            !r ==> final(self).entries@ == old(self).entries@,
    {
        match self.position_of(old_term) {
            Some(k) => {
                self.entries.set(k, new_entry);
                true
            },
            None => false,
        }
    }

    /// Removes the first entry whose term is `term`; returns whether there was one.
    pub fn remove_entry(&mut self, term: &str) -> (r: bool)
        ensures
            r == term_index(old(self).entries_spec(), term@) is Some,
            r ==> final(self).entries@ == old(self).entries@.remove(
                term_index(old(self).entries_spec(), term@)->Some_0,
            ),
            !r ==> final(self).entries@ == old(self).entries@,
    {
        match self.position_of(term) {
            Some(k) => {
                self.entries.remove(k);
                true
            },
            None => false,
        }
    }

    /// The entries whose term, aliases or description hold `query`, compared in
    /// lower case; all entries for an empty query.
    pub fn search_entries(&self, query: &str) -> (r: Vec<DictionaryEntry>)
        ensures
            query@.len() == 0 ==> entries_view(r@) == self.entries_spec(),
            query@.len() > 0 ==> entries_view(r@) == matching_entries(
                self.entries_spec(),
                lower_of(query@),
            ),
    {
        let all = query.unicode_len() == 0;
        let q = lowercase(query);
        let mut out: Vec<DictionaryEntry> = Vec::new();
        let mut k: usize = 0;
        while k < self.entries.len()
            invariant
                k <= self.entries@.len(),
                all == (query@.len() == 0),
                q@ == lower_of(query@),
                all ==> entries_view(out@) == self.entries_spec().subrange(0, k as int),
                !all ==> entries_view(out@) == matching_entries(
                    self.entries_spec().subrange(0, k as int),
                    q@,
                ),
            decreases self.entries@.len() - k,
        {
            let ghost pre = self.entries_spec().subrange(0, k as int);
            let ghost next = self.entries_spec().subrange(0, k + 1);
            proof {
                assert(next.drop_last() =~= pre);
                assert(next.last() == self.entries@[k as int]@);
            }
            if all || self.entries[k].matches_lowered(q.as_str()) {
                let ghost before = out@;
                out.push(self.entries[k].duplicate());
                proof {
                    assert(entries_view(out@) =~= entries_view(before).push(self.entries@[k as int]@));
                    if all {
                        assert(entries_view(out@) =~= next);
                    }
                }
            }
            k = k + 1;
        }
        proof {
            assert(self.entries_spec().subrange(0, self.entries@.len() as int) =~= self.entries_spec());
        }
        out
    }

    /// The terms of all entries, in order.
    pub fn get_terms(&self) -> (r: Vec<String>)
        ensures
            r@.len() == self.entries@.len(),
            forall|i: int| 0 <= i < r@.len() ==> #[trigger] r@[i] == self.entries@[i].term,
    {
        let mut out: Vec<String> = Vec::with_capacity(self.entries.len());
        let mut k: usize = 0;
        while k < self.entries.len()
            invariant
                k <= self.entries@.len(),
                out@.len() == k,
                forall|i: int| 0 <= i < k ==> #[trigger] out@[i] == self.entries@[i].term,
            decreases self.entries@.len() - k,
        {
            out.push(self.entries[k].term.clone());
            k = k + 1;
        }
        out
    }
}

impl Default for PersonalDictionary {
    fn default() -> (r: Self)
        ensures
            r.entries@.len() == 0,
    {
        PersonalDictionary::new()
    }
}

} // verus!
