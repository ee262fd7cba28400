//! The reference store: a fixed, ordered collection of documentation
//! sections, each a title with an ordered list of keybinding entries.
//!
//! The store is built from one authoritative table, so the index order
//! and the per-section entries cannot drift apart: every key the index
//! holds belongs to exactly one section of the store.

use vstd::prelude::*;
use crate::text::lower_chars;

verus! {

/// A single keybinding entry: a human-readable label and the shortcut
/// it documents.
pub struct Entry {
    pub label: String,
    pub shortcut: String,
}

/// Mathematical model of an `Entry`.
#[verifier::ext_equal]
pub ghost struct EntryModel {
    pub label: Seq<char>,
    pub shortcut: Seq<char>,
}

/// Mathematical model of a `Section`.
#[verifier::ext_equal]
pub ghost struct SectionModel {
    pub key: Seq<char>,
    pub title: Seq<char>,
    pub entries: Seq<EntryModel>,
}

impl View for Entry {
    type V = EntryModel;

    open spec fn view(&self) -> EntryModel {
        EntryModel { label: self.label@, shortcut: self.shortcut@ }
    }
}

/// One documentation section: a lookup key, a display title, and the
/// ordered keybinding entries.
pub struct Section {
    pub key: String,
    pub title: String,
    pub entries: Vec<Entry>,
}

impl View for Section {
    type V = SectionModel;

    open spec fn view(&self) -> SectionModel {
        SectionModel {
            key: self.key@,
            title: self.title@,
            entries: Seq::new(self.entries@.len(), |i: int| self.entries@[i]@),
        }
    }
}

/// The whole reference store, in display order.
pub struct Store {
    pub sections: Vec<Section>,
}

impl View for Store {
    type V = Seq<SectionModel>;

    open spec fn view(&self) -> Seq<SectionModel> {
        Seq::new(self.sections@.len(), |i: int| self.sections@[i]@)
    }
}

/// The keys of the sections, in display order.
pub open spec fn spec_keys(ss: Seq<SectionModel>) -> Seq<Seq<char>> {
    Seq::new(ss.len(), |i: int| ss[i].key)
}

/// Well-formedness of a store: every key is a non-empty string already
/// in ASCII lowercase, no two sections share a key, and every section
/// has a non-empty title and at least one entry.
pub open spec fn sections_wf(ss: Seq<SectionModel>) -> bool {
    &&& forall|i: int| 0 <= i < ss.len() ==> (#[trigger] ss[i]).key.len() > 0
    &&& forall|i: int| 0 <= i < ss.len() ==> lower_chars((#[trigger] ss[i]).key) == ss[i].key
    &&& forall|i: int| 0 <= i < ss.len() ==> (#[trigger] ss[i]).title.len() > 0
    &&& forall|i: int| 0 <= i < ss.len() ==> (#[trigger] ss[i]).entries.len() > 0
    &&& forall|i: int, j: int|
        0 <= i < j < ss.len() ==> (#[trigger] ss[i]).key != (#[trigger] ss[j]).key
}

/// Index of the first section at or after position `i` whose key is
/// exactly `key`.
pub open spec fn find_from(ss: Seq<SectionModel>, key: Seq<char>, i: int) -> Option<int>
    decreases ss.len() - i,
{
    if i < 0 || i >= ss.len() {
        None
    } else if ss[i].key == key {
        Some(i)
    } else {
        find_from(ss, key, i + 1)
    }
}

/// Index of the section whose key is exactly `key`, if any.
pub open spec fn find_key(ss: Seq<SectionModel>, key: Seq<char>) -> Option<int> {
    find_from(ss, key, 0)
}

impl Store {
    /// Case-insensitive lookup: the section whose key equals `key`
    /// folded to ASCII lowercase, or `None` when no section has that
    /// key.
    pub fn get_section(&self, key: &str) -> (r: Option<&Section>)
        ensures
            match find_key(self@, lower_chars(key@)) {
                Some(i) => r matches Some(s) && s@ == self@[i],
                None => r is None,
            },
    {
        let n = self.sections.len();
        let mut i: usize = 0;
        while i < n
            invariant
                n == self.sections@.len(),
                i <= n,
                find_key(self@, lower_chars(key@)) == find_from(
                    self@,
                    lower_chars(key@),
                    i as int,
                ),
            decreases n - i,
        {
            if crate::text::matches_key_ci(key, self.sections[i].key.as_str()) {
                return Some(&self.sections[i]);
            }
            i += 1;
        }
        None
    }

    /// The section keys, in display order.
    pub fn section_keys(&self) -> (r: Vec<String>)
        ensures
            r@.len() == self@.len(),
            forall|i: int| 0 <= i < r@.len() ==> (#[trigger] r@[i])@ == self@[i].key,
    {
        let n = self.sections.len();
        let mut keys: Vec<String> = Vec::new();
        let mut i: usize = 0;
        while i < n
            invariant
                n == self.sections@.len(),
                i <= n,
                keys@.len() == i,
                forall|j: int| 0 <= j < i ==> (#[trigger] keys@[j])@ == self@[j].key,
            decreases n - i,
        {
            keys.push(self.sections[i].key.clone());
            i += 1;
        }
        keys
    }
}

proof fn lemma_find_from_hit(ss: Seq<SectionModel>, key: Seq<char>, j: int, i: int)
    requires
        0 <= j <= i < ss.len(),
        ss[i].key == key,
        forall|l: int| j <= l < i ==> (#[trigger] ss[l]).key != key,
    ensures
        find_from(ss, key, j) == Some(i),
    decreases i - j,
{
    if j < i {
        lemma_find_from_hit(ss, key, j + 1, i);
    }
}

/// In a well-formed store, the key of the section at position `i`
/// finds exactly that section: the index and the per-section records
/// can never disagree.
pub proof fn lemma_wf_find(ss: Seq<SectionModel>, i: int)
    requires
        sections_wf(ss),
        0 <= i < ss.len(),
    ensures
        find_key(ss, ss[i].key) == Some(i),
{
    lemma_find_from_hit(ss, ss[i].key, 0, i);
}

/// Every key the index holds looks up a section with a non-empty
/// title and a non-empty entry list, even through the case-folding
/// lookup path.
pub proof fn lemma_index_lookup(ss: Seq<SectionModel>, i: int)
    requires
        sections_wf(ss),
        0 <= i < ss.len(),
    ensures
        find_key(ss, lower_chars(ss[i].key)) == Some(i),
        ss[i].title.len() > 0,
        ss[i].entries.len() > 0,
{
    assert(lower_chars(ss[i].key) == ss[i].key);
    lemma_wf_find(ss, i);
}

/// The section index of a well-formed store holds no duplicate key.
pub proof fn lemma_keys_distinct(ss: Seq<SectionModel>, i: int, j: int)
    requires
        sections_wf(ss),
        0 <= i < j < ss.len(),
    ensures
        spec_keys(ss)[i] != spec_keys(ss)[j],
{
}

} // verus!
