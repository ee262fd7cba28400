//! Command dispatch: turns the parsed command-line flags into exactly
//! one request, and answers each request with the effect the caller
//! must carry out.
//!
//! The library itself performs no input or output. The caller hands in
//! the flag values it parsed, receives a [`Response`], and is expected
//! to print the text, open the browser, or run the picker, as the
//! variant says.

use vstd::prelude::*;
use vstd::string::StringExecFns;
use crate::render::{full_text, list_text, render_full, render_list, render_section, section_text};
use crate::store::{SectionModel, Store, find_key, sections_wf, spec_keys};
use crate::text::lower_chars;

verus! {

/// The one action a run of the tool performs.
pub enum Request {
    /// Open the canonical reference page in the browser.
    Open,
    /// Print every section key, one per line.
    List,
    /// Print the full reference.
    Full,
    /// Offer an interactive choice of section keys, then print the
    /// chosen section.
    Picker,
    /// Print the section with this (case-insensitive) key.
    Section(String),
    /// Print the usage text; look nothing up, open nothing.
    Help,
}

/// The effect the caller must carry out for a request.
pub enum Response {
    /// Print this text.
    Print(String),
    /// Print the first string as a status line, then open the second,
    /// a URL, in the default browser.
    Browse(String, String),
    /// Put the choices to the user under the given prompt; the chosen
    /// string is then answered by [`respond_choice`].
    Pick(String, Vec<String>),
    /// Print the usage text.
    Usage,
}

/// The URL of the canonical reference card page.
pub open spec fn refcard_url() -> Seq<char> {
    "https://i3wm.org/docs/refcard.html"@
}

/// The status line printed before the browser opens.
pub open spec fn browse_status() -> Seq<char> {
    "Opening in browser..."@
}

/// The prompt shown above the interactive section picker.
pub open spec fn picker_prompt() -> Seq<char> {
    "Pick a section to view:"@
}

/// The reply to a section lookup that found nothing.
pub open spec fn not_found_text() -> Seq<char> {
    "The provided section does not exist. Try the section picker or the list flag!"@
}

/// The reply to a section request: the rendered section when the
/// case-folded key is in the store, the fixed not-found message
/// otherwise.
pub open spec fn section_reply(ss: Seq<SectionModel>, key: Seq<char>) -> Seq<char> {
    match find_key(ss, lower_chars(key)) {
        Some(i) => section_text(ss[i]),
        None => not_found_text(),
    }
}

/// Turns the flag values into the one request they select. The flags
/// take precedence in the order open, list, full, picker; a present,
/// non-empty section value is the default path, and a run with
/// nothing set asks for the usage text.
pub fn parse_request(
    open_flag: bool,
    list: bool,
    full: bool,
    picker: bool,
    section: Option<String>,
) -> (r: Request)
    ensures
        open_flag ==> r is Open,
        !open_flag && list ==> r is List,
        !open_flag && !list && full ==> r is Full,
        !open_flag && !list && !full && picker ==> r is Picker,
        !open_flag && !list && !full && !picker ==> (match section {
            Some(s) => if s@.len() > 0 {
                r matches Request::Section(t) && t@ == s@
            } else {
                r is Help
            },
            None => r is Help,
        }),
{
    if open_flag {
        Request::Open
    } else if list {
        Request::List
    } else if full {
        Request::Full
    } else if picker {
        Request::Picker
    } else {
        match section {
            Some(s) => if s.as_str().is_empty() {
                Request::Help
            } else {
                Request::Section(s)
            },
            None => Request::Help,
        }
    }
}

/// Answers one request from the store. No request mutates the store,
/// and a help request touches neither the store nor the browser.
pub fn respond(store: &Store, req: &Request) -> (r: Response)
    ensures
        req is Open ==> (r matches Response::Browse(status, url) && status@ == browse_status()
            && url@ == refcard_url()),
        req is List ==> (r matches Response::Print(s) && s@ == list_text(spec_keys(store@))),
        req is Full ==> (r matches Response::Print(s) && s@ == full_text(store@)),
        req is Picker ==> (r matches Response::Pick(prompt, choices) && prompt@ == picker_prompt()
            && choices@.len() == store@.len() && (forall|i: int|
            0 <= i < choices@.len() ==> (#[trigger] choices@[i])@ == store@[i].key)),
        req matches Request::Section(k) ==> (r matches Response::Print(s) && s@ == section_reply(
            store@,
            k@,
        )),
        req is Help ==> r is Usage,
{
    match req {
        Request::Open => Response::Browse(
            String::from_str("Opening in browser..."),
            String::from_str("https://i3wm.org/docs/refcard.html"),
        ),
        Request::List => Response::Print(render_list(store)),
        Request::Full => Response::Print(render_full(store)),
        Request::Picker => Response::Pick(
            String::from_str("Pick a section to view:"),
            store.section_keys(),
        ),
        Request::Section(k) => match store.get_section(k.as_str()) {
            Some(sec) => Response::Print(render_section(sec)),
            None => Response::Print(
                String::from_str(
                    "The provided section does not exist. Try the section picker or the list flag!",
                ),
            ),
        },
        Request::Help => Response::Usage,
    }
}

/// Renders the section picked from the choices that [`respond`]
/// offered, or `None` when the choice is no key of the store.
pub fn respond_choice(store: &Store, choice: &str) -> (r: Option<String>)
    ensures
        match find_key(store@, lower_chars(choice@)) {
            Some(i) => r matches Some(s) && s@ == section_text(store@[i]),
            None => r is None,
        },
{
    match store.get_section(choice) {
        Some(sec) => Some(render_section(sec)),
        None => None,
    }
}

/// In a well-formed store, every offered picker choice renders a
/// section: the picked key is found again by the lookup it is handed
/// to.
pub proof fn lemma_choice_always_found(ss: Seq<SectionModel>, i: int)
    requires
        sections_wf(ss),
        0 <= i < ss.len(),
    ensures
        find_key(ss, lower_chars(ss[i].key)) == Some(i),
{
    crate::store::lemma_index_lookup(ss, i);
}

/// Folding a query before the lookup changes nothing: a query and its
/// ASCII-lowercase form are answered with the same reply text.
pub proof fn lemma_reply_equals_folded_reply(ss: Seq<SectionModel>, a: Seq<char>)
    ensures
        section_reply(ss, a) == section_reply(ss, lower_chars(a)),
{
    assert forall|i: int| 0 <= i < a.len() implies lower_chars(lower_chars(a))[i] == lower_chars(
        a,
    )[i] by {
        assert(lower_chars(a)[i] == crate::text::lower_char(a[i]));
    };
    assert(lower_chars(lower_chars(a)) =~= lower_chars(a));
}

/// Section keys that agree after ASCII case folding are answered with
/// the same reply text.
pub proof fn lemma_section_reply_case_insensitive(
    ss: Seq<SectionModel>,
    a: Seq<char>,
    b: Seq<char>,
)
    requires
        lower_chars(a) == lower_chars(b),
    ensures
        section_reply(ss, a) == section_reply(ss, b),
{
}

/// The note shown at the head of the usage text.
pub fn about_text() -> (r: String)
    ensures
        r@
            == "Command line reference for i3wm.\n\nNote: The key referred to as \"mod\" in the reference should be Left Alt by default. Some people have \nit set as Win/Cmd (depending on their keyboard). It should be set near the top of your i3 config file."@,
{
    String::from_str(
        "Command line reference for i3wm.\n\nNote: The key referred to as \"mod\" in the reference should be Left Alt by default. Some people have \nit set as Win/Cmd (depending on their keyboard). It should be set near the top of your i3 config file.",
    )
}

} // verus!
