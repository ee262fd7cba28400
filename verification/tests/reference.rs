use i3ref::data::reference_store;
use i3ref::dispatch::{parse_request, respond, respond_choice, Request, Response};
use i3ref::render::{render_full, render_list, render_section};

const ALL_KEYS: [&str; 8] = [
    "basics",
    "moving",
    "modifying",
    "layout",
    "floating",
    "workspaces",
    "opening/closing",
    "restart/exit",
];

fn section_request(key: &str) -> Request {
    parse_request(false, false, false, false, Some(key.to_string()))
}

fn print_of(r: Response) -> String {
    match r {
        Response::Print(s) => s,
        _ => panic!("expected a Print response"),
    }
}

#[test]
fn every_index_key_finds_a_full_section() {
    let store = reference_store();
    let keys = store.section_keys();
    assert_eq!(keys.len(), 8);
    for key in &keys {
        let sec = store
            .get_section(key.as_str())
            .expect("an index key must find its section");
        assert_eq!(&sec.key, key);
        assert!(!sec.title.is_empty());
        assert!(!sec.entries.is_empty());
        for e in &sec.entries {
            assert!(!e.label.is_empty());
        }
    }
}

#[test]
fn list_output_is_the_index_in_order_one_key_per_line() {
    let store = reference_store();
    let listed = render_list(&store);
    let expected =
        "basics\nmoving\nmodifying\nlayout\nfloating\nworkspaces\nopening/closing\nrestart/exit\n";
    assert_eq!(listed, expected);
    let lines: Vec<&str> = listed.lines().collect();
    assert_eq!(lines, ALL_KEYS.to_vec());
    for i in 0..lines.len() {
        for j in 0..i {
            assert_ne!(lines[i], lines[j], "the list must hold no duplicate key");
        }
    }
}

#[test]
fn section_lookup_ignores_ascii_case() {
    let store = reference_store();
    let lower = print_of(respond(&store, &section_request("basics")));
    let upper = print_of(respond(&store, &section_request("BASICS")));
    let mixed = print_of(respond(&store, &section_request("BaSiCs")));
    assert_eq!(lower, upper);
    assert_eq!(lower, mixed);
    assert!(lower.starts_with("Basics:\n\n"));

    let slash = print_of(respond(&store, &section_request("Opening/Closing")));
    let direct = render_section(store.get_section("opening/closing").expect("present"));
    assert_eq!(slash, direct);

    let accented = print_of(respond(&store, &section_request("b\u{e4}sics")));
    assert_eq!(
        accented,
        "The provided section does not exist. Try the section picker or the list flag!"
    );
}

#[test]
fn unknown_section_gets_the_fixed_not_found_reply() {
    let store = reference_store();
    let reply = print_of(respond(&store, &section_request("doesnotexist")));
    assert_eq!(
        reply,
        "The provided section does not exist. Try the section picker or the list flag!"
    );
}

#[test]
fn full_reference_is_every_section_once_with_one_blank_separator() {
    let store = reference_store();
    let full = render_full(&store);
    let mut expected = String::new();
    for (i, key) in ALL_KEYS.iter().enumerate() {
        if i > 0 {
            expected.push('\n');
        }
        let sec = store.get_section(key).expect("key must be present");
        expected.push_str(&render_section(sec));
    }
    assert_eq!(full, expected);
    for key in &ALL_KEYS {
        let sec = store.get_section(key).expect("key must be present");
        let block = render_section(sec);
        assert_eq!(
            full.matches(&block).count(),
            1,
            "exactly one block per section"
        );
    }
}

#[test]
fn no_arguments_asks_for_usage_and_touches_nothing() {
    let store = reference_store();
    let req = parse_request(false, false, false, false, None);
    assert!(matches!(req, Request::Help));
    let r = respond(&store, &req);
    assert!(matches!(r, Response::Usage));
}

#[test]
fn empty_section_value_asks_for_usage() {
    let req = parse_request(false, false, false, false, Some(String::new()));
    assert!(matches!(req, Request::Help));
}

#[test]
fn rendered_section_has_the_exact_line_format() {
    let store = reference_store();
    let sec = store.get_section("layout").expect("layout must be present");
    let text = render_section(sec);
    assert_eq!(
        text,
        "Changing the container layout:\n\nDefault layout:    mod + e\nStacking layout:    mod + s\nTabbed layout:    mod + w\n"
    );
}

#[test]
fn flags_take_precedence_in_a_fixed_order() {
    assert!(matches!(
        parse_request(true, true, true, true, Some("basics".to_string())),
        Request::Open
    ));
    assert!(matches!(
        parse_request(false, true, true, true, None),
        Request::List
    ));
    assert!(matches!(
        parse_request(false, false, true, true, None),
        Request::Full
    ));
    assert!(matches!(
        parse_request(false, false, false, true, None),
        Request::Picker
    ));
    match parse_request(false, false, false, false, Some("Moving".to_string())) {
        Request::Section(s) => assert_eq!(s, "Moving"),
        _ => panic!("expected a section request"),
    }
}

#[test]
fn open_request_names_the_refcard_url() {
    let store = reference_store();
    match respond(&store, &Request::Open) {
        Response::Browse(status, url) => {
            assert_eq!(status, "Opening in browser...");
            assert_eq!(url, "https://i3wm.org/docs/refcard.html");
        }
        _ => panic!("expected a Browse response"),
    }
}

#[test]
fn picker_offers_every_key_in_order() {
    let store = reference_store();
    match respond(&store, &Request::Picker) {
        Response::Pick(prompt, choices) => {
            assert_eq!(prompt, "Pick a section to view:");
            assert_eq!(choices, ALL_KEYS.to_vec());
        }
        _ => panic!("expected a Pick response"),
    }
}

#[test]
fn every_picker_choice_renders_its_section() {
    let store = reference_store();
    for key in &ALL_KEYS {
        let rendered = respond_choice(&store, key).expect("choice must render");
        let sec = store.get_section(key).expect("key must be present");
        assert_eq!(rendered, render_section(sec));
    }
    assert!(respond_choice(&store, "doesnotexist").is_none());
}

#[test]
fn list_and_full_agree_with_the_section_request_path() {
    let store = reference_store();
    match respond(&store, &Request::List) {
        Response::Print(s) => assert_eq!(s, render_list(&store)),
        _ => panic!("expected a Print response"),
    }
    match respond(&store, &Request::Full) {
        Response::Print(s) => assert_eq!(s, render_full(&store)),
        _ => panic!("expected a Print response"),
    }
    let via_request = print_of(respond(&store, &section_request("floating")));
    let direct = render_section(store.get_section("floating").expect("present"));
    assert_eq!(via_request, direct);
}
