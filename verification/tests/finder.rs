use winshot::{CaptureError, WindowFinder, WindowProbe};

fn probe(handle: isize, visible: bool, title: &str) -> WindowProbe {
    let len: i32 = title.len() as i32;
    WindowProbe { handle, visible, reported_len: len, copied_len: len, title: title.to_string() }
}

#[test]
fn list_keeps_only_visible_titled_windows() {
    let probes = vec![
        probe(1, true, "Notepad"),
        probe(2, false, "Hidden"),
        WindowProbe {
            handle: 3,
            visible: true,
            reported_len: 0,
            copied_len: 0,
            title: String::new(),
        },
        WindowProbe {
            handle: 4,
            visible: true,
            reported_len: 9,
            copied_len: 0,
            title: String::new(),
        },
        probe(5, true, "Editor"),
    ];
    let finder = WindowFinder::new(true, 0, probes).unwrap();
    assert_eq!(finder.windows.len(), 2);
    assert_eq!(finder.windows[0].handle, 1);
    assert_eq!(finder.windows[0].title, "Notepad");
    assert_eq!(finder.windows[1].handle, 5);
    assert_eq!(finder.windows[1].title, "Editor");
}

#[test]
fn aborted_walk_fails_enumeration() {
    let r = WindowFinder::new(false, 5, vec![probe(1, true, "Notepad")]);
    match r {
        Err(e) => assert_eq!(e, CaptureError::EnumerationFailed(5)),
        Ok(_) => panic!("an aborted walk must fail"),
    }
}

#[test]
fn find_returns_first_substring_match() {
    let finder = WindowFinder::new(
        true,
        0,
        vec![probe(1, true, "Alpha"), probe(2, true, "My Notepad - notes"), probe(3, true, "otep")],
    )
    .unwrap();
    let rec = finder.find("otep").unwrap();
    assert_eq!(rec.handle, 2);
    assert!(finder.find("zzz").is_none());
}

#[test]
fn find_accepts_any_title_for_empty_needle() {
    let finder = WindowFinder::new(true, 0, vec![probe(9, true, "Anything")]).unwrap();
    let rec = finder.find("").unwrap();
    assert_eq!(rec.handle, 9);
}

#[test]
fn find_exact_requires_full_equality() {
    let finder = WindowFinder::new(
        true,
        0,
        vec![probe(1, true, "Notepad - draft"), probe(2, true, "Notepad"), probe(3, true, "Notepad")],
    )
    .unwrap();
    let rec = finder.find_exact("Notepad").unwrap();
    assert_eq!(rec.handle, 2);
    assert!(finder.find_exact("notepad").is_none());
}

#[test]
fn find_matches_non_ascii_titles_by_characters() {
    let finder = WindowFinder::new(
        true,
        0,
        vec![probe(1, true, "Editor"), probe(2, true, "Блокнот — заметки")],
    )
    .unwrap();
    let rec = finder.find("локно").unwrap();
    assert_eq!(rec.handle, 2);
    let exact = finder.find_exact("Блокнот — заметки").unwrap();
    assert_eq!(exact.handle, 2);
    assert!(finder.find("лоХ").is_none());
}

#[test]
fn list_windows_reports_titles_verbatim() {
    let records =
        winshot::list_windows(true, 0, vec![probe(8, true, "a b"), probe(9, true, " ")]).unwrap();
    assert_eq!(records.len(), 2);
    assert_eq!(records[0].title, "a b");
    assert_eq!(records[1].title, " ");
    assert_eq!(records[1].handle, 9);
}

#[test]
fn find_on_empty_list_returns_nothing() {
    let finder = WindowFinder::new(true, 0, Vec::new()).unwrap();
    assert!(finder.find("a").is_none());
    assert!(finder.find_exact("a").is_none());
}
