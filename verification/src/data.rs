//! The authoritative keybinding table.
//!
//! Every section is written once, as one record holding its key, its
//! title and its ordered entries, so the display index and the
//! per-section data cannot drift apart. `spec_sections` is the
//! mathematical value of the table; `reference_store` builds exactly
//! that value.

use vstd::prelude::*;
use vstd::string::StringExecFns;
use crate::store::{Entry, EntryModel, Section, SectionModel, Store, sections_wf};
use crate::text::lower_chars;

verus! {

/// The value of the reference table: every section, in display order.
pub open spec fn spec_sections() -> Seq<SectionModel> {
    seq![
        SectionModel {
            key: "basics"@,
            title: "Basics"@,
            entries: seq![
                EntryModel { label: "Open new terminal"@, shortcut: "mod + Enter"@ },
                EntryModel { label: "Focus left"@, shortcut: "mod + j OR mod + Left Arrow"@ },
                EntryModel { label: "Focus down"@, shortcut: "mod + k OR mod + Down Arrow"@ },
                EntryModel { label: "Focus up"@, shortcut: "mod + k OR mod + Up Arrow"@ },
                EntryModel { label: "Focus right"@, shortcut: "mod + ; OR mod + Right Arrow"@ },
                EntryModel { label: "Focus parent"@, shortcut: "mod + a"@ },
                EntryModel { label: "Toggle focus mode"@, shortcut: "mod + Space"@ },
            ],
        },
        SectionModel {
            key: "moving"@,
            title: "Moving windows"@,
            entries: seq![
                EntryModel {
                    label: "Move window left"@,
                    shortcut: "mod + Shift + j OR mod + shift + Left Arrow"@,
                },
                EntryModel {
                    label: "Move window down"@,
                    shortcut: "mod + Shift + k OR mod + shift + Down Arrow"@,
                },
                EntryModel {
                    label: "Move window up"@,
                    shortcut: "mod + Shift + l OR mod + shift + Up Arrow"@,
                },
                EntryModel {
                    label: "Move window right"@,
                    shortcut: "mod + Shift + l OR mod + shift + Right Arrow"@,
                },
            ],
        },
        SectionModel {
            key: "modifying"@,
            title: "Modifying windows"@,
            entries: seq![
                EntryModel { label: "Toggle fullscreen"@, shortcut: "mod + f"@ },
                EntryModel { label: "Split window vertically"@, shortcut: "mod + v"@ },
                EntryModel { label: "Split window horizontally"@, shortcut: "mod + h"@ },
                EntryModel { label: "Enter/exit Resize mode"@, shortcut: "mod + r"@ },
            ],
        },
        SectionModel {
            key: "layout"@,
            title: "Changing the container layout"@,
            entries: seq![
                EntryModel { label: "Default layout"@, shortcut: "mod + e"@ },
                EntryModel { label: "Stacking layout"@, shortcut: "mod + s"@ },
                EntryModel { label: "Tabbed layout"@, shortcut: "mod + w"@ },
            ],
        },
        SectionModel {
            key: "floating"@,
            title: "Floating"@,
            entries: seq![
                EntryModel { label: "Toggle floating on window"@, shortcut: "mod + Shift + Space"@ },
                EntryModel {
                    label: "Drag floating window"@,
                    shortcut: "Drag window bar (the one at the top of the window with the title) with Left Click"@,
                },
            ],
        },
        SectionModel {
            key: "workspaces"@,
            title: "Using workspaces"@,
            entries: seq![
                EntryModel { label: "Switch to workspace"@, shortcut: "mod + 0-9"@ },
                EntryModel { label: "Move window to workspace"@, shortcut: "mod + Shift + 0-9"@ },
            ],
        },
        SectionModel {
            key: "opening/closing"@,
            title: "Opening applications / Closing windows"@,
            entries: seq![
                EntryModel {
                    label: "Open application launcher (by default, dmenu)"@,
                    shortcut: "mod + d"@,
                },
                EntryModel { label: "Kill a window"@, shortcut: "mod + Shift + q"@ },
            ],
        },
        SectionModel {
            key: "restart/exit"@,
            title: "Restart / Exit"@,
            entries: seq![
                EntryModel { label: "Reload from configuration"@, shortcut: "mod + Shift + c"@ },
                EntryModel { label: "Restart i3 in place"@, shortcut: "mod + Shift + r"@ },
                EntryModel { label: "Exit i3"@, shortcut: "mod + Shift + e"@ },
            ],
        },
    ]
}

fn entry(label: &str, shortcut: &str) -> (r: Entry)
    ensures
        r@ == (EntryModel { label: label@, shortcut: shortcut@ }),
{
    Entry { label: String::from_str(label), shortcut: String::from_str(shortcut) }
}

fn section_basics() -> (r: Section)
    ensures
        r@ == spec_sections()[0],
{
    let mut es: Vec<Entry> = Vec::new();
    es.push(entry("Open new terminal", "mod + Enter"));
    es.push(entry("Focus left", "mod + j OR mod + Left Arrow"));
    es.push(entry("Focus down", "mod + k OR mod + Down Arrow"));
    es.push(entry("Focus up", "mod + k OR mod + Up Arrow"));
    es.push(entry("Focus right", "mod + ; OR mod + Right Arrow"));
    es.push(entry("Focus parent", "mod + a"));
    es.push(entry("Toggle focus mode", "mod + Space"));
    let s = Section {
        key: String::from_str("basics"),
        title: String::from_str("Basics"),
        entries: es,
    };
    proof {
        assert(s@ =~~= spec_sections()[0]);
    }
    s
}

fn section_moving() -> (r: Section)
    ensures
        r@ == spec_sections()[1],
{
    let mut es: Vec<Entry> = Vec::new();
    es.push(entry("Move window left", "mod + Shift + j OR mod + shift + Left Arrow"));
    es.push(entry("Move window down", "mod + Shift + k OR mod + shift + Down Arrow"));
    es.push(entry("Move window up", "mod + Shift + l OR mod + shift + Up Arrow"));
    es.push(entry("Move window right", "mod + Shift + l OR mod + shift + Right Arrow"));
    let s = Section {
        key: String::from_str("moving"),
        title: String::from_str("Moving windows"),
        entries: es,
    };
    proof {
        assert(s@ =~~= spec_sections()[1]);
    }
    s
}

fn section_modifying() -> (r: Section)
    ensures
        r@ == spec_sections()[2],
{
    let mut es: Vec<Entry> = Vec::new();
    es.push(entry("Toggle fullscreen", "mod + f"));
    es.push(entry("Split window vertically", "mod + v"));
    es.push(entry("Split window horizontally", "mod + h"));
    es.push(entry("Enter/exit Resize mode", "mod + r"));
    let s = Section {
        key: String::from_str("modifying"),
        title: String::from_str("Modifying windows"),
        entries: es,
    };
    proof {
        assert(s@ =~~= spec_sections()[2]);
    }
    s
}

fn section_layout() -> (r: Section)
    ensures
        r@ == spec_sections()[3],
{
    let mut es: Vec<Entry> = Vec::new();
    es.push(entry("Default layout", "mod + e"));
    es.push(entry("Stacking layout", "mod + s"));
    es.push(entry("Tabbed layout", "mod + w"));
    let s = Section {
        key: String::from_str("layout"),
        title: String::from_str("Changing the container layout"),
        entries: es,
    };
    proof {
        assert(s@ =~~= spec_sections()[3]);
    }
    s
}

fn section_floating() -> (r: Section)
    ensures
        r@ == spec_sections()[4],
{
    let mut es: Vec<Entry> = Vec::new();
    es.push(entry("Toggle floating on window", "mod + Shift + Space"));
    es.push(
        entry(
            "Drag floating window",
            "Drag window bar (the one at the top of the window with the title) with Left Click",
        ),
    );
    let s = Section {
        key: String::from_str("floating"),
        title: String::from_str("Floating"),
        entries: es,
    };
    proof {
        assert(s@ =~~= spec_sections()[4]);
    }
    s
}

fn section_workspaces() -> (r: Section)
    ensures
        r@ == spec_sections()[5],
{
    let mut es: Vec<Entry> = Vec::new();
    es.push(entry("Switch to workspace", "mod + 0-9"));
    es.push(entry("Move window to workspace", "mod + Shift + 0-9"));
    let s = Section {
        key: String::from_str("workspaces"),
        title: String::from_str("Using workspaces"),
        entries: es,
    };
    proof {
        assert(s@ =~~= spec_sections()[5]);
    }
    s
}

fn section_opening_closing() -> (r: Section)
    ensures
        r@ == spec_sections()[6],
{
    let mut es: Vec<Entry> = Vec::new();
    es.push(entry("Open application launcher (by default, dmenu)", "mod + d"));
    es.push(entry("Kill a window", "mod + Shift + q"));
    let s = Section {
        key: String::from_str("opening/closing"),
        title: String::from_str("Opening applications / Closing windows"),
        entries: es,
    };
    proof {
        assert(s@ =~~= spec_sections()[6]);
    }
    s
}

fn section_restart_exit() -> (r: Section)
    ensures
        r@ == spec_sections()[7],
{
    let mut es: Vec<Entry> = Vec::new();
    es.push(entry("Reload from configuration", "mod + Shift + c"));
    es.push(entry("Restart i3 in place", "mod + Shift + r"));
    es.push(entry("Exit i3", "mod + Shift + e"));
    let s = Section {
        key: String::from_str("restart/exit"),
        title: String::from_str("Restart / Exit"),
        entries: es,
    };
    proof {
        assert(s@ =~~= spec_sections()[7]);
    }
    s
}

/// Builds the reference store; its value is exactly `spec_sections`.
pub fn reference_store() -> (r: Store)
    ensures
        r@ == spec_sections(),
{
    let mut v: Vec<Section> = Vec::new();
    v.push(section_basics());
    v.push(section_moving());
    v.push(section_modifying());
    v.push(section_layout());
    v.push(section_floating());
    v.push(section_workspaces());
    v.push(section_opening_closing());
    v.push(section_restart_exit());
    let st = Store { sections: v };
    proof {
        assert(st@ =~~= spec_sections());
    }
    st
}

/// The reference table is well-formed: non-empty lowercase keys, no
/// two sections sharing a key, and a non-empty title and entry list in
/// every section.
pub proof fn lemma_reference_wf()
    ensures
        sections_wf(spec_sections()),
{
    reveal_strlit("basics");
    reveal_strlit("Basics");
    reveal_strlit("moving");
    reveal_strlit("Moving windows");
    reveal_strlit("modifying");
    reveal_strlit("Modifying windows");
    reveal_strlit("layout");
    reveal_strlit("Changing the container layout");
    reveal_strlit("floating");
    reveal_strlit("Floating");
    reveal_strlit("workspaces");
    reveal_strlit("Using workspaces");
    reveal_strlit("opening/closing");
    reveal_strlit("Opening applications / Closing windows");
    reveal_strlit("restart/exit");
    reveal_strlit("Restart / Exit");
    let ss = spec_sections();
    assert(lower_chars(ss[0].key) =~= ss[0].key);
    assert(lower_chars(ss[1].key) =~= ss[1].key);
    assert(lower_chars(ss[2].key) =~= ss[2].key);
    assert(lower_chars(ss[3].key) =~= ss[3].key);
    assert(lower_chars(ss[4].key) =~= ss[4].key);
    assert(lower_chars(ss[5].key) =~= ss[5].key);
    assert(lower_chars(ss[6].key) =~= ss[6].key);
    assert(lower_chars(ss[7].key) =~= ss[7].key);
    assert(ss.len() == 8);
    assert(forall|i: int| 0 <= i < ss.len() ==> (#[trigger] ss[i]).key.len() > 0);
    assert(forall|i: int| 0 <= i < ss.len() ==> lower_chars((#[trigger] ss[i]).key) == ss[i].key);
    assert(forall|i: int| 0 <= i < ss.len() ==> (#[trigger] ss[i]).title.len() > 0);
    assert(forall|i: int| 0 <= i < ss.len() ==> (#[trigger] ss[i]).entries.len() > 0);
    assert forall|i: int, j: int|
        0 <= i < j < ss.len() implies (#[trigger] ss[i]).key != (#[trigger] ss[j]).key by {
        if i == 0 {
            if j == 1 {
                assert(ss[0].key[0] == 'b');
                assert(ss[1].key[0] == 'm');
                assert(ss[0].key != ss[1].key);
            } else if j == 2 {
                assert(ss[0].key != ss[2].key);
            } else if j == 3 {
                assert(ss[0].key[0] == 'b');
                assert(ss[3].key[0] == 'l');
                assert(ss[0].key != ss[3].key);
            } else if j == 4 {
                assert(ss[0].key != ss[4].key);
            } else if j == 5 {
                assert(ss[0].key != ss[5].key);
            } else if j == 6 {
                assert(ss[0].key != ss[6].key);
            } else if j == 7 {
                assert(ss[0].key != ss[7].key);
            }
        } else if i == 1 {
            if j == 2 {
                assert(ss[1].key != ss[2].key);
            } else if j == 3 {
                assert(ss[1].key[0] == 'm');
                assert(ss[3].key[0] == 'l');
                assert(ss[1].key != ss[3].key);
            } else if j == 4 {
                assert(ss[1].key != ss[4].key);
            } else if j == 5 {
                assert(ss[1].key != ss[5].key);
            } else if j == 6 {
                assert(ss[1].key != ss[6].key);
            } else if j == 7 {
                assert(ss[1].key != ss[7].key);
            }
        } else if i == 2 {
            if j == 3 {
                assert(ss[2].key != ss[3].key);
            } else if j == 4 {
                assert(ss[2].key != ss[4].key);
            } else if j == 5 {
                assert(ss[2].key != ss[5].key);
            } else if j == 6 {
                assert(ss[2].key != ss[6].key);
            } else if j == 7 {
                assert(ss[2].key != ss[7].key);
            }
        } else if i == 3 {
            if j == 4 {
                assert(ss[3].key != ss[4].key);
            } else if j == 5 {
                assert(ss[3].key != ss[5].key);
            } else if j == 6 {
                assert(ss[3].key != ss[6].key);
            } else if j == 7 {
                assert(ss[3].key != ss[7].key);
            }
        } else if i == 4 {
            if j == 5 {
                assert(ss[4].key != ss[5].key);
            } else if j == 6 {
                assert(ss[4].key != ss[6].key);
            } else if j == 7 {
                assert(ss[4].key != ss[7].key);
            }
        } else if i == 5 {
            if j == 6 {
                assert(ss[5].key != ss[6].key);
            } else if j == 7 {
                assert(ss[5].key != ss[7].key);
            }
        } else if i == 6 {
            if j == 7 {
                assert(ss[6].key != ss[7].key);
            }
        }
    };
    assert(sections_wf(ss));
}

} // verus!
