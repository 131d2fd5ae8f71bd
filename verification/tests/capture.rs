use vmark::capture::{
    is_document_window_label, CaptureResponse, CaptureRound, ResponseOutcome, WaitStep,
    CAPTURE_TIMEOUT_SECS, DOCUMENT_WINDOW_PREFIX, MAIN_WINDOW_LABEL, RESPONSE_POLL_INTERVAL_MS,
};
use vmark::error::HotExitError;
use vmark::session::{
    DocumentState, SessionData, TabState, UiState, WindowState, SCHEMA_VERSION,
};
use vmark::window_order::{listed_before, sort_windows};

fn window(label: &str, is_main: bool, content: &str) -> WindowState {
    WindowState {
        window_label: label.to_string(),
        is_main_window: is_main,
        active_tab_id: Some("tab-1".to_string()),
        tabs: vec![TabState {
            id: "tab-1".to_string(),
            file_path: None,
            title: "Untitled".to_string(),
            is_pinned: false,
            document: DocumentState {
                content: content.to_string(),
                saved_content: String::new(),
                is_dirty: true,
                is_missing: false,
                is_divergent: false,
                line_ending: "\n".to_string(),
                cursor_info: None,
                last_modified_timestamp: None,
                is_untitled: true,
                untitled_number: Some(1),
            },
        }],
        ui_state: UiState {
            sidebar_visible: true,
            sidebar_width: 260,
            outline_visible: false,
            sidebar_view_mode: "files".to_string(),
            status_bar_visible: true,
            source_mode_enabled: false,
            focus_mode_enabled: false,
            typewriter_mode_enabled: false,
        },
        geometry: None,
    }
}

fn labels(names: &[&str]) -> Vec<String> {
    names.iter().map(|n| n.to_string()).collect()
}

fn response(round: &CaptureRound, label: &str, state: WindowState) -> CaptureResponse {
    CaptureResponse {
        capture_id: round.request().capture_id,
        window_label: label.to_string(),
        state,
    }
}

fn content_of(session: &SessionData, index: usize) -> &str {
    &session.windows[index].tabs[0].document.content
}

#[test]
fn capture_constants() {
    assert_eq!(MAIN_WINDOW_LABEL, "main");
    assert_eq!(DOCUMENT_WINDOW_PREFIX, "doc-");
    assert_eq!(CAPTURE_TIMEOUT_SECS, 5);
    assert_eq!(RESPONSE_POLL_INTERVAL_MS, 100);
}

#[test]
fn document_windows_are_main_and_doc() {
    assert!(is_document_window_label("main"));
    assert!(is_document_window_label("doc-0"));
    assert!(is_document_window_label("doc-"));
    assert!(is_document_window_label("doc-main"));
    assert!(!is_document_window_label("settings"));
    assert!(!is_document_window_label("Main"));
    assert!(!is_document_window_label("main "));
    assert!(!is_document_window_label("doc"));
    assert!(!is_document_window_label("xdoc-1"));
    assert!(!is_document_window_label(""));
}

#[test]
fn capture_with_no_windows_fails() {
    assert_eq!(
        CaptureRound::begin(&labels(&[])).unwrap_err(),
        HotExitError::NoWindowsToCapture
    );
    assert_eq!(
        CaptureRound::begin(&labels(&["settings", "about"])).unwrap_err(),
        HotExitError::NoWindowsToCapture
    );
    assert_eq!(
        CaptureRound::begin_at(&labels(&["settings"]), 17).unwrap_err(),
        HotExitError::NoWindowsToCapture
    );
}

#[test]
fn capture_id_is_made_of_the_time() {
    let round = CaptureRound::begin_at(&labels(&["main"]), 1_700_000_000_123).unwrap();
    assert_eq!(round.request().capture_id, "capture-1700000000123");
    let round = CaptureRound::begin_at(&labels(&["main"]), -5).unwrap();
    assert_eq!(round.request().capture_id, "capture--5");

    let before = chrono::Utc::now().timestamp_millis();
    let round = CaptureRound::begin(&labels(&["main"])).unwrap();
    let after = chrono::Utc::now().timestamp_millis();
    let id = round.request().capture_id;
    let millis: i64 = id.strip_prefix("capture-").unwrap().parse().unwrap();
    assert!(before <= millis && millis <= after);
}

#[test]
fn two_windows_answer_out_of_order() {
    let mut round = CaptureRound::begin_at(&labels(&["main", "doc-0", "settings"]), 1).unwrap();
    assert!(!round.is_complete());

    let b = response(&round, "doc-0", window("doc-0", false, "state_b"));
    assert_eq!(round.accept(b), ResponseOutcome::Accepted);
    assert!(!round.is_complete());
    assert_eq!(round.response_count(), 1);

    let a = response(&round, "main", window("main", true, "state_a"));
    assert_eq!(round.accept(a), ResponseOutcome::Accepted);
    assert!(round.is_complete());

    let x = response(&round, "doc-99", window("doc-99", false, "state_x"));
    assert_eq!(round.accept(x), ResponseOutcome::UnexpectedWindow);
    let s = response(&round, "settings", window("settings", false, "state_s"));
    assert_eq!(round.accept(s), ResponseOutcome::UnexpectedWindow);
    assert_eq!(round.response_count(), 2);

    let session = round.finish_at(1_700_000_000, "0.3.18".to_string()).unwrap();
    assert_eq!(session.version, SCHEMA_VERSION);
    assert_eq!(session.timestamp, 1_700_000_000);
    assert_eq!(session.vmark_version, "0.3.18");
    assert!(session.workspace.is_none());
    assert_eq!(session.windows.len(), 2);
    assert_eq!(session.windows[0].window_label, "main");
    assert!(session.windows[0].is_main_window);
    assert_eq!(content_of(&session, 0), "state_a");
    assert_eq!(session.windows[1].window_label, "doc-0");
    assert_eq!(content_of(&session, 1), "state_b");
}

#[test]
fn all_windows_answer() {
    let names = ["doc-2", "doc-10", "main", "doc-1", "doc-0"];
    let mut round = CaptureRound::begin_at(&labels(&names), 1).unwrap();
    for name in names {
        assert!(!round.is_complete());
        let r = response(&round, name, window(name, name == "main", name));
        assert_eq!(round.accept(r), ResponseOutcome::Accepted);
    }
    assert!(round.is_complete());
    let session = round.finish("0.3.18".to_string()).unwrap();
    let order: Vec<&str> = session.windows.iter().map(|w| w.window_label.as_str()).collect();
    assert_eq!(order, vec!["main", "doc-0", "doc-1", "doc-10", "doc-2"]);
    let now = chrono::Utc::now().timestamp();
    assert!(now - 5 <= session.timestamp && session.timestamp <= now);
}

#[test]
fn some_windows_answer_before_the_deadline() {
    let mut round = CaptureRound::begin_at(&labels(&["main", "doc-0", "doc-1"]), 1).unwrap();
    let r = response(&round, "doc-1", window("doc-1", false, "one"));
    assert_eq!(round.accept(r), ResponseOutcome::Accepted);
    let r = response(&round, "doc-0", window("doc-0", false, "zero"));
    assert_eq!(round.accept(r), ResponseOutcome::Accepted);
    assert!(!round.is_complete());
    let session = round.finish_at(7, "v".to_string()).unwrap();
    assert_eq!(session.windows.len(), 2);
    assert_eq!(session.windows[0].window_label, "doc-0");
    assert_eq!(session.windows[1].window_label, "doc-1");
}

#[test]
fn no_window_answers_before_the_deadline() {
    let round = CaptureRound::begin_at(&labels(&["main", "doc-0"]), 1).unwrap();
    assert!(!round.is_complete());
    assert_eq!(round.response_count(), 0);
    assert_eq!(
        round.finish_at(7, "v".to_string()).unwrap_err(),
        HotExitError::CaptureTimeout
    );
    let round = CaptureRound::begin_at(&labels(&["main"]), 1).unwrap();
    assert_eq!(
        round.finish("v".to_string()).unwrap_err(),
        HotExitError::CaptureTimeout
    );
}

#[test]
fn a_response_of_another_round_is_dropped() {
    let old = CaptureRound::begin_at(&labels(&["main"]), 1).unwrap();
    let mut round = CaptureRound::begin_at(&labels(&["main", "doc-0"]), 2).unwrap();
    let stale = response(&old, "main", window("main", true, "stale"));
    assert_eq!(round.accept(stale), ResponseOutcome::StaleRound);
    assert_eq!(round.response_count(), 0);
    // The round is judged before the sender.
    let stale = response(&old, "doc-77", window("doc-77", false, "stale"));
    assert_eq!(round.accept(stale), ResponseOutcome::StaleRound);

    let fresh = response(&round, "main", window("main", true, "fresh"));
    assert_eq!(round.accept(fresh), ResponseOutcome::Accepted);
    let stale = response(&old, "doc-0", window("doc-0", false, "stale"));
    assert_eq!(round.accept(stale), ResponseOutcome::StaleRound);
    let session = round.finish_at(7, "v".to_string()).unwrap();
    assert_eq!(session.windows.len(), 1);
    assert_eq!(content_of(&session, 0), "fresh");
}

#[test]
fn a_second_response_of_a_window_is_dropped() {
    let mut round = CaptureRound::begin_at(&labels(&["main", "doc-0"]), 1).unwrap();
    let first = response(&round, "doc-0", window("doc-0", false, "first"));
    assert_eq!(round.accept(first), ResponseOutcome::Accepted);
    let second = response(&round, "doc-0", window("doc-0", false, "second"));
    assert_eq!(round.accept(second), ResponseOutcome::Duplicate);
    assert_eq!(round.response_count(), 1);
    assert!(!round.is_complete());
    let session = round.finish_at(7, "v".to_string()).unwrap();
    assert_eq!(session.windows.len(), 1);
    assert_eq!(content_of(&session, 0), "first");
}

#[test]
fn a_state_is_recorded_under_the_label_of_its_sender() {
    let mut round = CaptureRound::begin_at(&labels(&["main", "doc-3"]), 1).unwrap();
    let r = response(&round, "doc-3", window("doc-wrong", false, "three"));
    assert_eq!(round.accept(r), ResponseOutcome::Accepted);
    // The label that the state reports for itself does not count as an answer.
    let r = response(&round, "doc-3", window("main", true, "again"));
    assert_eq!(round.accept(r), ResponseOutcome::Duplicate);
    let session = round.finish_at(7, "v".to_string()).unwrap();
    assert_eq!(session.windows.len(), 1);
    assert_eq!(session.windows[0].window_label, "doc-3");
    assert_eq!(content_of(&session, 0), "three");
}

#[test]
fn windows_listed_twice_are_expected_once() {
    let mut round = CaptureRound::begin_at(&labels(&["doc-0", "main", "doc-0"]), 1).unwrap();
    let r = response(&round, "doc-0", window("doc-0", false, "zero"));
    assert_eq!(round.accept(r), ResponseOutcome::Accepted);
    assert!(!round.is_complete());
    let r = response(&round, "main", window("main", true, "main"));
    assert_eq!(round.accept(r), ResponseOutcome::Accepted);
    assert!(round.is_complete());
}

#[test]
fn the_main_flag_goes_before_the_label() {
    let sorted = sort_windows(vec![
        window("a", false, "1"),
        window("z", true, "2"),
        window("b", false, "3"),
        window("main", true, "4"),
        window("", false, "5"),
        window("B", false, "6"),
        window("b", false, "7"),
        window("\u{e9}", false, "8"),
        window("ab", false, "9"),
    ]);
    let order: Vec<(&str, &str)> = sorted
        .iter()
        .map(|w| (w.window_label.as_str(), w.tabs[0].document.content.as_str()))
        .collect();
    assert_eq!(
        order,
        vec![
            ("main", "4"),
            ("z", "2"),
            ("", "5"),
            ("B", "6"),
            ("a", "1"),
            ("ab", "9"),
            ("b", "3"),
            ("b", "7"),
            ("\u{e9}", "8"),
        ]
    );
    assert!(sort_windows(Vec::new()).is_empty());
}

#[test]
fn listing_order_is_the_order_of_str() {
    let names = ["", "a", "A", "ab", "b", "doc-1", "doc-10", "doc-2", "main", "\u{e9}", "\u{1F600}", "z\u{0}"];
    for a in names {
        for b in names {
            for (main_a, main_b) in [(false, false), (false, true), (true, false), (true, true)] {
                let expected = match (main_a, main_b) {
                    (true, false) => true,
                    (false, true) => false,
                    _ => a < b,
                };
                assert_eq!(
                    listed_before(&window(a, main_a, ""), &window(b, main_b, "")),
                    expected,
                    "{:?} {:?}",
                    (a, main_a),
                    (b, main_b)
                );
            }
        }
    }
}

#[test]
fn the_wait_ends_when_all_have_answered_or_time_is_up() {
    let mut round = CaptureRound::begin_at(&labels(&["main", "doc-0"]), 1).unwrap();
    assert_eq!(round.wait_step(0), WaitStep::Poll);
    assert_eq!(round.wait_step(4_999), WaitStep::Poll);
    assert_eq!(round.wait_step(5_000), WaitStep::TimedOut);
    assert_eq!(round.wait_step(u64::MAX), WaitStep::TimedOut);
    let r = response(&round, "main", window("main", true, "m"));
    round.accept(r);
    assert_eq!(round.wait_step(100), WaitStep::Poll);
    assert_eq!(round.wait_step(5_000), WaitStep::TimedOut);
    let r = response(&round, "doc-0", window("doc-0", false, "d"));
    round.accept(r);
    assert_eq!(round.wait_step(0), WaitStep::Finish);
    assert_eq!(round.wait_step(5_000), WaitStep::Finish);
}
