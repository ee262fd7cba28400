//! Rendering of sections, the section list, and the full reference as
//! plain text.
//!
//! A section renders as its title, a colon, a blank line, then one
//! `label:    shortcut` line per entry. The full reference renders
//! every section in display order with exactly one blank line between
//! consecutive sections. The list renders every key on a line of its
//! own, in display order.

use vstd::prelude::*;
use vstd::string::StringExecFns;
use crate::store::{EntryModel, Section, SectionModel, Store, spec_keys};

verus! {

/// One rendered keybinding line: `label:    shortcut`, newline-terminated.
pub open spec fn entry_text(e: EntryModel) -> Seq<char> {
    e.label + ":    "@ + e.shortcut + "\n"@
}

/// The rendered entry lines of a section, in order.
pub open spec fn entries_text(es: Seq<EntryModel>) -> Seq<char>
    decreases es.len(),
{
    if es.len() == 0 {
        Seq::empty()
    } else {
        entry_text(es[0]) + entries_text(es.drop_first())
    }
}

/// A rendered section: `title:`, a blank line, then the entry lines.
pub open spec fn section_text(s: SectionModel) -> Seq<char> {
    s.title + ":\n\n"@ + entries_text(s.entries)
}

/// The full reference: every section in order, with exactly one blank
/// line between consecutive sections.
pub open spec fn full_text(ss: Seq<SectionModel>) -> Seq<char>
    decreases ss.len(),
{
    if ss.len() == 0 {
        Seq::empty()
    } else if ss.len() == 1 {
        section_text(ss[0])
    } else {
        section_text(ss[0]) + "\n"@ + full_text(ss.drop_first())
    }
}

/// The section list: every key on a line of its own, in order.
pub open spec fn list_text(keys: Seq<Seq<char>>) -> Seq<char>
    decreases keys.len(),
{
    if keys.len() == 0 {
        Seq::empty()
    } else {
        keys[0] + "\n"@ + list_text(keys.drop_first())
    }
}

/// Appending one entry to a rendered prefix of the entry list.
proof fn lemma_entries_text_snoc(es: Seq<EntryModel>, i: int)
    requires
        0 <= i < es.len(),
    ensures
        entries_text(es.take(i + 1)) == entries_text(es.take(i)) + entry_text(es[i]),
    decreases i,
{
    if i == 0 {
        assert(es.take(1) =~= Seq::empty().push(es[0]));
        assert(es.take(1).drop_first() =~= Seq::<EntryModel>::empty());
        assert(es.take(0) =~= Seq::<EntryModel>::empty());
        assert(entries_text(es.take(1)) =~= entries_text(es.take(0)) + entry_text(es[0]));
    } else {
        lemma_entries_text_snoc(es.drop_first(), i - 1);
        assert(es.take(i + 1).drop_first() =~= es.drop_first().take(i));
        assert(es.take(i).drop_first() =~= es.drop_first().take(i - 1));
        assert(es.take(i + 1)[0] == es[0]);
        assert(es.take(i)[0] == es[0]);
        assert(es.drop_first()[i - 1] == es[i]);
        assert(entries_text(es.take(i + 1)) =~= entries_text(es.take(i)) + entry_text(es[i]));
    }
}

/// Renders one section.
pub fn render_section(s: &Section) -> (r: String)
    ensures
        r@ == section_text(s@),
{
    let mut out = String::new();
    out.append(s.title.as_str());
    out.append(":\n\n");
    let n = s.entries.len();
    let mut i: usize = 0;
    proof {
        assert(s@.entries.take(0) =~= Seq::<EntryModel>::empty());
        assert(out@ =~= s@.title + ":\n\n"@ + entries_text(s@.entries.take(0)));
    }
    while i < n
        invariant
            n == s.entries@.len(),
            i <= n,
            s@.entries.len() == n,
            out@ == s@.title + ":\n\n"@ + entries_text(s@.entries.take(i as int)),
        decreases n - i,
    {
        out.append(s.entries[i].label.as_str());
        out.append(":    ");
        out.append(s.entries[i].shortcut.as_str());
        out.append("\n");
        proof {
            lemma_entries_text_snoc(s@.entries, i as int);
            assert(out@ =~= s@.title + ":\n\n"@ + entries_text(s@.entries.take(i + 1)));
        }
        i += 1;
    }
    proof {
        assert(s@.entries.take(n as int) =~= s@.entries);
    }
    out
}

/// Appending one more section to a rendered prefix of the full
/// reference.
proof fn lemma_full_text_snoc(ss: Seq<SectionModel>, i: int)
    requires
        1 <= i < ss.len(),
    ensures
        full_text(ss.take(i + 1)) == full_text(ss.take(i)) + "\n"@ + section_text(ss[i]),
    decreases i,
{
    if i == 1 {
        let t2 = ss.take(2);
        assert(t2.len() == 2);
        assert(t2[0] == ss[0]);
        assert(t2.drop_first() =~= Seq::empty().push(ss[1]));
        assert(t2.drop_first().len() == 1);
        assert(t2.drop_first()[0] == ss[1]);
        assert(full_text(t2.drop_first()) == section_text(ss[1]));
        assert(full_text(t2) == section_text(ss[0]) + "\n"@ + section_text(ss[1]));
        assert(ss.take(1).len() == 1);
        assert(ss.take(1)[0] == ss[0]);
        assert(full_text(ss.take(1)) == section_text(ss[0]));
    } else {
        lemma_full_text_snoc(ss.drop_first(), i - 1);
        assert(ss.take(i + 1).drop_first() =~= ss.drop_first().take(i));
        assert(ss.take(i).drop_first() =~= ss.drop_first().take(i - 1));
        assert(ss.take(i + 1)[0] == ss[0]);
        assert(ss.take(i)[0] == ss[0]);
        assert(ss.drop_first()[i - 1] == ss[i]);
        assert(full_text(ss.take(i + 1)) =~= full_text(ss.take(i)) + "\n"@ + section_text(ss[i]));
    }
}

/// Renders the full reference.
pub fn render_full(store: &Store) -> (r: String)
    ensures
        r@ == full_text(store@),
{
    let n = store.sections.len();
    if n == 0 {
        let out = String::new();
        proof {
            assert(out@ =~= full_text(store@));
        }
        return out;
    }
    let mut out = render_section(&store.sections[0]);
    let mut i: usize = 1;
    proof {
        assert(store@.take(1) =~= Seq::empty().push(store@[0]));
        assert(out@ =~= full_text(store@.take(1)));
    }
    while i < n
        invariant
            n == store.sections@.len(),
            1 <= i <= n,
            store@.len() == n,
            out@ == full_text(store@.take(i as int)),
        decreases n - i,
    {
        out.append("\n");
        let piece = render_section(&store.sections[i]);
        out.append(piece.as_str());
        proof {
            lemma_full_text_snoc(store@, i as int);
            assert(out@ =~= full_text(store@.take(i + 1)));
        }
        i += 1;
    }
    proof {
        assert(store@.take(n as int) =~= store@);
    }
    out
}

/// Appending one more key line to a rendered prefix of the list.
proof fn lemma_list_text_snoc(keys: Seq<Seq<char>>, i: int)
    requires
        0 <= i < keys.len(),
    ensures
        list_text(keys.take(i + 1)) == list_text(keys.take(i)) + keys[i] + "\n"@,
    decreases i,
{
    if i == 0 {
        assert(keys.take(1) =~= Seq::empty().push(keys[0]));
        assert(keys.take(1).drop_first() =~= Seq::<Seq<char>>::empty());
        assert(keys.take(0) =~= Seq::<Seq<char>>::empty());
        assert(list_text(keys.take(1)) =~= list_text(keys.take(0)) + keys[0] + "\n"@);
    } else {
        lemma_list_text_snoc(keys.drop_first(), i - 1);
        assert(keys.take(i + 1).drop_first() =~= keys.drop_first().take(i));
        assert(keys.take(i).drop_first() =~= keys.drop_first().take(i - 1));
        assert(keys.take(i + 1)[0] == keys[0]);
        assert(keys.take(i)[0] == keys[0]);
        assert(keys.drop_first()[i - 1] == keys[i]);
        assert(list_text(keys.take(i + 1)) =~= list_text(keys.take(i)) + keys[i] + "\n"@);
    }
}

/// Renders the section list.
pub fn render_list(store: &Store) -> (r: String)
    ensures
        r@ == list_text(spec_keys(store@)),
{
    let n = store.sections.len();
    let mut out = String::new();
    let mut i: usize = 0;
    proof {
        assert(spec_keys(store@).take(0) =~= Seq::<Seq<char>>::empty());
        assert(out@ =~= list_text(spec_keys(store@).take(0)));
    }
    while i < n
        invariant
            n == store.sections@.len(),
            i <= n,
            store@.len() == n,
            spec_keys(store@).len() == n,
            out@ == list_text(spec_keys(store@).take(i as int)),
        decreases n - i,
    {
        out.append(store.sections[i].key.as_str());
        out.append("\n");
        proof {
            lemma_list_text_snoc(spec_keys(store@), i as int);
            assert(spec_keys(store@)[i as int] == store@[i as int].key);
            assert(out@ =~= list_text(spec_keys(store@).take(i + 1)));
        }
        i += 1;
    }
    proof {
        assert(spec_keys(store@).take(n as int) =~= spec_keys(store@));
    }
    out
}

} // verus!
