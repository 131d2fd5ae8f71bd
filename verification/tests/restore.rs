use vmark::error::HotExitError;
use vmark::pending::{
    clear_pending_restore, get_window_restore_state, mark_window_restore_complete,
    PendingRestoreState,
};
use vmark::restore::{
    drop_failed, plan_multi_window_restore, plan_multi_window_restore_at,
    prepare_session_for_restore, restore_session, restore_session_at,
    restore_session_multi_window, restore_session_multi_window_at, settle_secondary,
    stage_secondary, RestoreMultiWindowResult,
};
use vmark::session::{SessionData, UiState, WindowGeometry, WindowState, SCHEMA_VERSION};

const NOW: i64 = 1_700_000_000;

fn window(label: &str, is_main: bool, tab: &str) -> WindowState {
    WindowState {
        window_label: label.to_string(),
        is_main_window: is_main,
        active_tab_id: Some(tab.to_string()),
        tabs: Vec::new(),
        ui_state: UiState {
            sidebar_visible: false,
            sidebar_width: 200,
            outline_visible: true,
            sidebar_view_mode: "outline".to_string(),
            status_bar_visible: true,
            source_mode_enabled: true,
            focus_mode_enabled: false,
            typewriter_mode_enabled: false,
        },
        geometry: Some(WindowGeometry { x: -10, y: 20, width: 800, height: 600 }),
    }
}

fn session(windows: Vec<WindowState>) -> SessionData {
    SessionData {
        version: SCHEMA_VERSION,
        timestamp: NOW - 60,
        vmark_version: "0.3.18".to_string(),
        windows,
        workspace: None,
    }
}

fn labels(names: &[&str]) -> Vec<String> {
    names.iter().map(|n| n.to_string()).collect()
}

fn tab_of(state: &PendingRestoreState, label: &str) -> Option<String> {
    get_window_restore_state(state, label).map(|w| w.active_tab_id.unwrap())
}

// -- the hand-off ------------------------------------------------------------

#[test]
fn nothing_is_staged_at_first() {
    let mut state = PendingRestoreState::new();
    assert!(get_window_restore_state(&state, "main").is_none());
    assert!(!state.all_complete());
    assert!(!mark_window_restore_complete(&mut state, "main"));
    assert!(!state.all_complete());
}

#[test]
fn a_staged_state_can_be_pulled_again_and_again() {
    let mut state = PendingRestoreState::new();
    state.stage(
        vec![
            ("main".to_string(), window("main", true, "m")),
            ("doc-0".to_string(), window("doc-0", false, "d")),
        ],
        labels(&["main", "doc-0"]),
    );
    for _ in 0..3 {
        assert_eq!(tab_of(&state, "main").as_deref(), Some("m"));
        assert_eq!(tab_of(&state, "doc-0").as_deref(), Some("d"));
        assert!(get_window_restore_state(&state, "doc-1").is_none());
        assert!(get_window_restore_state(&state, "").is_none());
    }
    let pulled = get_window_restore_state(&state, "main").unwrap();
    assert_eq!(pulled.window_label, "main");
    assert!(pulled.is_main_window);
    assert_eq!(pulled.ui_state.sidebar_view_mode, "outline");
    assert_eq!(pulled.geometry, Some(WindowGeometry { x: -10, y: 20, width: 800, height: 600 }));
}

#[test]
fn a_new_round_drops_the_old_one() {
    let mut state = PendingRestoreState::new();
    state.stage(
        vec![
            ("main".to_string(), window("main", true, "old-main")),
            ("doc-0".to_string(), window("doc-0", false, "old-doc")),
        ],
        labels(&["main", "doc-0"]),
    );
    assert!(!mark_window_restore_complete(&mut state, "doc-0"));
    state.stage(
        vec![("main".to_string(), window("main", true, "new-main"))],
        labels(&["main", "doc-0"]),
    );
    assert_eq!(tab_of(&state, "main").as_deref(), Some("new-main"));
    assert!(get_window_restore_state(&state, "doc-0").is_none());
    // The completion of the old round does not count in the new one.
    assert!(!mark_window_restore_complete(&mut state, "main"));
    assert!(mark_window_restore_complete(&mut state, "doc-0"));
}

#[test]
fn the_last_state_staged_under_a_label_is_the_one_found() {
    let mut state = PendingRestoreState::new();
    state.stage(
        vec![
            ("doc-0".to_string(), window("doc-0", false, "first")),
            ("doc-1".to_string(), window("doc-1", false, "other")),
            ("doc-0".to_string(), window("doc-0", false, "second")),
        ],
        labels(&["doc-0", "doc-1"]),
    );
    assert_eq!(tab_of(&state, "doc-0").as_deref(), Some("second"));
    assert_eq!(tab_of(&state, "doc-1").as_deref(), Some("other"));
}

#[test]
fn a_report_from_an_unexpected_window_completes_nothing() {
    let mut state = PendingRestoreState::new();
    state.stage(
        vec![("main".to_string(), window("main", true, "m"))],
        labels(&["main", "doc-0"]),
    );
    assert!(!mark_window_restore_complete(&mut state, "doc-9"));
    assert!(!mark_window_restore_complete(&mut state, "main"));
    assert!(!mark_window_restore_complete(&mut state, "doc-9"));
    assert!(!mark_window_restore_complete(&mut state, "settings"));
    assert!(!mark_window_restore_complete(&mut state, ""));
    assert!(!state.all_complete());
    assert!(mark_window_restore_complete(&mut state, "doc-0"));
    // Once all are done, a stray report does not undo it.
    assert!(mark_window_restore_complete(&mut state, "doc-9"));
}

#[test]
fn all_done_comes_with_the_last_expected_report() {
    let expected = ["main", "doc-0", "doc-1"];
    let orders: [[&str; 3]; 6] = [
        ["main", "doc-0", "doc-1"],
        ["main", "doc-1", "doc-0"],
        ["doc-0", "main", "doc-1"],
        ["doc-0", "doc-1", "main"],
        ["doc-1", "main", "doc-0"],
        ["doc-1", "doc-0", "main"],
    ];
    for order in orders {
        let mut state = PendingRestoreState::new();
        state.stage(Vec::new(), labels(&expected));
        assert!(!mark_window_restore_complete(&mut state, order[0]));
        assert!(!mark_window_restore_complete(&mut state, order[0]));
        assert!(!mark_window_restore_complete(&mut state, order[1]));
        assert!(!state.all_complete());
        assert!(mark_window_restore_complete(&mut state, order[2]));
        assert!(state.all_complete());
        assert!(mark_window_restore_complete(&mut state, order[1]));
    }
}

#[test]
fn clearing_forgets_everything() {
    let mut state = PendingRestoreState::new();
    state.stage(
        vec![("main".to_string(), window("main", true, "m"))],
        labels(&["main"]),
    );
    assert!(mark_window_restore_complete(&mut state, "main"));
    clear_pending_restore(&mut state);
    assert!(get_window_restore_state(&state, "main").is_none());
    assert!(!state.all_complete());
    assert!(!mark_window_restore_complete(&mut state, "main"));
    state.clear();
    assert!(!state.all_complete());
}

// -- validation --------------------------------------------------------------

#[test]
fn a_fresh_current_session_is_accepted() {
    let mut s = session(vec![window("main", true, "m")]);
    s.workspace = None;
    let prepared = prepare_session_for_restore(s, NOW).unwrap();
    assert_eq!(prepared.version, SCHEMA_VERSION);
    assert_eq!(prepared.timestamp, NOW - 60);
    assert_eq!(prepared.windows.len(), 1);
}

#[test]
fn a_session_of_a_newer_build_is_refused() {
    let mut s = session(vec![window("main", true, "m")]);
    s.version = SCHEMA_VERSION + 1;
    assert_eq!(
        prepare_session_for_restore(s, NOW).unwrap_err(),
        HotExitError::IncompatibleVersion { version: SCHEMA_VERSION + 1 }
    );
}

#[test]
fn a_session_of_version_zero_is_refused() {
    let mut s = session(vec![window("main", true, "m")]);
    s.version = 0;
    assert_eq!(
        prepare_session_for_restore(s, NOW).unwrap_err(),
        HotExitError::UnsupportedVersion { version: 0 }
    );
}

#[test]
fn a_stale_session_is_refused() {
    let mut s = session(vec![window("main", true, "m")]);
    s.timestamp = NOW - 7 * 86_400 - 1;
    assert_eq!(prepare_session_for_restore(s, NOW).unwrap_err(), HotExitError::StaleSession);
    let mut s = session(vec![window("main", true, "m")]);
    s.timestamp = NOW - 7 * 86_400;
    assert!(prepare_session_for_restore(s, NOW).is_ok());
    let mut s = session(vec![window("main", true, "m")]);
    s.timestamp = NOW + 1;
    assert_eq!(prepare_session_for_restore(s, NOW).unwrap_err(), HotExitError::StaleSession);
    // The version is judged before the age.
    let mut s = session(vec![]);
    s.timestamp = NOW + 1;
    s.version = 9;
    assert_eq!(
        prepare_session_for_restore(s, NOW).unwrap_err(),
        HotExitError::IncompatibleVersion { version: 9 }
    );
}

// -- single window -----------------------------------------------------------

#[test]
fn restore_goes_to_the_main_window() {
    let mut pending = PendingRestoreState::new();
    let s = session(vec![window("doc-5", false, "d"), window("main", true, "m")]);
    let target = restore_session_at(&mut pending, &labels(&["doc-0", "settings", "main"]), s, NOW);
    assert_eq!(target.unwrap(), "main");
    let staged = get_window_restore_state(&pending, "main").unwrap();
    assert_eq!(staged.active_tab_id.as_deref(), Some("m"));
    assert_eq!(staged.window_label, "main");
    assert!(get_window_restore_state(&pending, "doc-5").is_none());
    assert!(get_window_restore_state(&pending, "doc-0").is_none());
    assert!(!mark_window_restore_complete(&mut pending, "doc-0"));
    assert!(mark_window_restore_complete(&mut pending, "main"));
}

#[test]
fn restore_falls_back_to_the_first_document_window() {
    let mut pending = PendingRestoreState::new();
    let s = session(vec![window("main", true, "m"), window("doc-5", false, "d")]);
    let target = restore_session_at(&mut pending, &labels(&["settings", "doc-7", "doc-3"]), s, NOW);
    assert_eq!(target.unwrap(), "doc-7");
    let staged = get_window_restore_state(&pending, "doc-7").unwrap();
    // The state is that of the main window, under the label of the target.
    assert_eq!(staged.active_tab_id.as_deref(), Some("m"));
    assert_eq!(staged.window_label, "doc-7");
    assert!(staged.is_main_window);
    assert!(get_window_restore_state(&pending, "main").is_none());
    assert!(mark_window_restore_complete(&mut pending, "doc-7"));
}

#[test]
fn restore_takes_the_first_state_where_none_is_main() {
    let mut pending = PendingRestoreState::new();
    let s = session(vec![window("doc-5", false, "five"), window("doc-6", false, "six")]);
    let target = restore_session_at(&mut pending, &labels(&["main"]), s, NOW);
    assert_eq!(target.unwrap(), "main");
    let staged = get_window_restore_state(&pending, "main").unwrap();
    assert_eq!(staged.active_tab_id.as_deref(), Some("five"));
    assert!(!staged.is_main_window);
}

#[test]
fn restore_takes_the_first_of_several_main_states() {
    let mut pending = PendingRestoreState::new();
    let s = session(vec![
        window("doc-5", false, "five"),
        window("a", true, "first-main"),
        window("b", true, "second-main"),
    ]);
    restore_session_at(&mut pending, &labels(&["main"]), s, NOW).unwrap();
    assert_eq!(tab_of(&pending, "main").as_deref(), Some("first-main"));
}

#[test]
fn restore_fails_and_leaves_the_staging_alone() {
    let mut pending = PendingRestoreState::new();
    pending.stage(
        vec![("main".to_string(), window("main", true, "kept"))],
        labels(&["main"]),
    );
    let none = labels(&["settings"]);
    let some = labels(&["main"]);

    let s = session(vec![window("main", true, "m")]);
    assert_eq!(
        restore_session_at(&mut pending, &none, s, NOW).unwrap_err(),
        HotExitError::WindowNotFound
    );
    assert_eq!(
        restore_session_at(&mut pending, &some, session(vec![]), NOW).unwrap_err(),
        HotExitError::EmptySession
    );
    // A missing window is reported before an empty session.
    assert_eq!(
        restore_session_at(&mut pending, &none, session(vec![]), NOW).unwrap_err(),
        HotExitError::WindowNotFound
    );
    let mut stale = session(vec![window("main", true, "m")]);
    stale.timestamp = NOW - 8 * 86_400;
    assert_eq!(
        restore_session_at(&mut pending, &none, stale, NOW).unwrap_err(),
        HotExitError::StaleSession
    );
    let mut newer = session(vec![window("main", true, "m")]);
    newer.version = 2;
    assert_eq!(
        restore_session_at(&mut pending, &some, newer, NOW).unwrap_err(),
        HotExitError::IncompatibleVersion { version: 2 }
    );
    assert_eq!(tab_of(&pending, "main").as_deref(), Some("kept"));
    assert!(mark_window_restore_complete(&mut pending, "main"));
}

#[test]
fn restore_by_the_clock() {
    let now = chrono::Utc::now().timestamp();
    let mut pending = PendingRestoreState::new();
    let mut fresh = session(vec![window("main", true, "m")]);
    fresh.timestamp = now - 3600;
    assert_eq!(restore_session(&mut pending, &labels(&["main"]), fresh).unwrap(), "main");
    let mut old = session(vec![window("main", true, "m")]);
    old.timestamp = now - 8 * 86_400;
    assert_eq!(
        restore_session(&mut pending, &labels(&["main"]), old).unwrap_err(),
        HotExitError::StaleSession
    );
    let mut old = session(vec![window("main", true, "m")]);
    old.timestamp = now - 8 * 86_400;
    assert_eq!(
        plan_multi_window_restore(old, true).unwrap_err(),
        HotExitError::StaleSession
    );
    let mut fresh = session(vec![window("main", true, "m")]);
    fresh.timestamp = now - 3600;
    assert!(plan_multi_window_restore(fresh, true).is_ok());
}

// -- several windows ---------------------------------------------------------

#[test]
fn the_plan_parts_main_and_secondary() {
    let s = session(vec![
        window("doc-1", false, "one"),
        window("main", true, "m"),
        window("doc-2", false, "two"),
    ]);
    let plan = plan_multi_window_restore_at(s, NOW, true).unwrap();
    assert_eq!(plan.main_state.unwrap().active_tab_id.as_deref(), Some("m"));
    let tabs: Vec<&str> = plan.secondary.iter().map(|w| w.active_tab_id.as_deref().unwrap()).collect();
    assert_eq!(tabs, vec!["one", "two"]);
}

#[test]
fn the_plan_needs_a_valid_session_and_a_main_window() {
    let s = session(vec![window("main", true, "m")]);
    assert_eq!(
        plan_multi_window_restore_at(s, NOW, false).unwrap_err(),
        HotExitError::MainWindowNotFound
    );
    let mut stale = session(vec![window("main", true, "m")]);
    stale.timestamp = NOW + 10;
    assert_eq!(
        plan_multi_window_restore_at(stale, NOW, false).unwrap_err(),
        HotExitError::StaleSession
    );
    let plan = plan_multi_window_restore_at(session(vec![]), NOW, true).unwrap();
    assert!(plan.main_state.is_none());
    assert!(plan.secondary.is_empty());
}

#[test]
fn without_a_main_state_the_first_window_is_the_main_one() {
    let s = session(vec![window("doc-1", false, "one"), window("doc-2", false, "two")]);
    let plan = plan_multi_window_restore_at(s, NOW, true).unwrap();
    assert_eq!(plan.main_state.as_ref().unwrap().active_tab_id.as_deref(), Some("one"));
    let tabs: Vec<&str> = plan.secondary.iter().map(|w| w.active_tab_id.as_deref().unwrap()).collect();
    assert_eq!(tabs, vec!["two"]);
}

#[test]
fn a_second_main_state_gets_a_window_of_its_own() {
    let s = session(vec![
        window("doc-1", false, "one"),
        window("a", true, "first-main"),
        window("b", true, "second-main"),
        window("doc-2", false, "two"),
    ]);
    let plan = plan_multi_window_restore_at(s, NOW, true).unwrap();
    assert_eq!(plan.main_state.as_ref().unwrap().active_tab_id.as_deref(), Some("first-main"));
    let tabs: Vec<&str> = plan.secondary.iter().map(|w| w.active_tab_id.as_deref().unwrap()).collect();
    assert_eq!(tabs, vec!["one", "second-main", "two"]);
}

#[test]
fn two_unflagged_windows_make_one_new_window_and_two_staged_states() {
    let s = session(vec![window("w0", false, "zero"), window("w1", false, "one")]);
    let mut pending = PendingRestoreState::new();
    let secondary = restore_session_multi_window_at(&mut pending, s, NOW, true).unwrap();
    assert_eq!(secondary.len(), 1);
    let mut result = RestoreMultiWindowResult::new();
    for state in secondary {
        stage_secondary(&mut pending, state, "doc-0".to_string());
        settle_secondary(&mut pending, &mut result, "doc-0".to_string(), true);
    }
    assert_eq!(result.windows_created, vec!["doc-0"]);
    assert_eq!(tab_of(&pending, "main").as_deref(), Some("zero"));
    assert_eq!(tab_of(&pending, "doc-0").as_deref(), Some("one"));
    assert!(get_window_restore_state(&pending, "w0").is_none());
    assert!(get_window_restore_state(&pending, "w1").is_none());
    assert!(!mark_window_restore_complete(&mut pending, "main"));
    assert!(mark_window_restore_complete(&mut pending, "doc-0"));
}

#[test]
fn a_state_is_found_from_the_moment_it_is_staged() {
    let s = session(vec![
        window("doc-1", false, "one"),
        window("old-main", true, "m"),
        window("doc-2", false, "two"),
        window("doc-3", false, "three"),
    ]);
    let mut pending = PendingRestoreState::new();
    // What an earlier round left under a label that is used again.
    pending.stage(
        vec![
            ("doc-7".to_string(), window("doc-7", false, "stale")),
            ("doc-1".to_string(), window("doc-1", false, "stale")),
        ],
        labels(&["doc-7", "doc-1"]),
    );
    assert!(!mark_window_restore_complete(&mut pending, "doc-7"));

    let secondary = restore_session_multi_window_at(&mut pending, s, NOW, true).unwrap();
    // The start drops the earlier round and stages the main window alone.
    assert!(get_window_restore_state(&pending, "doc-7").is_none());
    assert!(get_window_restore_state(&pending, "doc-1").is_none());
    let main = get_window_restore_state(&pending, "main").unwrap();
    assert_eq!(main.active_tab_id.as_deref(), Some("m"));
    assert_eq!(main.window_label, "main");
    assert!(main.is_main_window);

    let new_labels = ["doc-7", "doc-8", "doc-9"];
    let built = [true, false, true];
    let mut result = RestoreMultiWindowResult::new();
    for (i, state) in secondary.into_iter().enumerate() {
        let tab = state.active_tab_id.clone();
        stage_secondary(&mut pending, state, new_labels[i].to_string());
        // Staged before the window is built: a pull finds it at once.
        let found = get_window_restore_state(&pending, new_labels[i]).unwrap();
        assert_eq!(found.active_tab_id, tab);
        assert_eq!(found.window_label, new_labels[i]);
        assert!(!found.is_main_window);
        settle_secondary(&mut pending, &mut result, new_labels[i].to_string(), built[i]);
    }
    assert_eq!(result.windows_created, vec!["doc-7", "doc-9"]);
    assert_eq!(tab_of(&pending, "doc-7").as_deref(), Some("one"));
    assert_eq!(tab_of(&pending, "doc-9").as_deref(), Some("three"));
    assert_eq!(tab_of(&pending, "main").as_deref(), Some("m"));
    // The window that failed finds nothing and is not waited for.
    assert!(get_window_restore_state(&pending, "doc-8").is_none());
    assert!(get_window_restore_state(&pending, "doc-2").is_none());
    assert!(get_window_restore_state(&pending, "old-main").is_none());

    assert!(!mark_window_restore_complete(&mut pending, "doc-9"));
    assert!(!mark_window_restore_complete(&mut pending, "doc-8"));
    assert!(!mark_window_restore_complete(&mut pending, "main"));
    assert!(mark_window_restore_complete(&mut pending, "doc-7"));
}

#[test]
fn dropping_a_window_leaves_the_others() {
    let mut pending = PendingRestoreState::new();
    restore_session_multi_window_at(&mut pending, session(vec![window("main", true, "m")]), NOW, true)
        .unwrap();
    stage_secondary(&mut pending, window("x", true, "a"), "doc-1".to_string());
    stage_secondary(&mut pending, window("y", false, "b"), "doc-2".to_string());
    stage_secondary(&mut pending, window("z", false, "c"), "doc-1".to_string());
    assert_eq!(tab_of(&pending, "doc-1").as_deref(), Some("c"));
    assert!(!mark_window_restore_complete(&mut pending, "doc-2"));
    drop_failed(&mut pending, "doc-2");
    assert!(get_window_restore_state(&pending, "doc-2").is_none());
    assert_eq!(tab_of(&pending, "doc-1").as_deref(), Some("c"));
    assert_eq!(tab_of(&pending, "main").as_deref(), Some("m"));
    drop_failed(&mut pending, "doc-5");
    assert!(!mark_window_restore_complete(&mut pending, "doc-1"));
    assert!(mark_window_restore_complete(&mut pending, "main"));
    drop_failed(&mut pending, "doc-1");
    assert!(get_window_restore_state(&pending, "doc-1").is_none());
    assert!(pending.all_complete());
    drop_failed(&mut pending, "main");
    assert!(!pending.all_complete());
    assert!(get_window_restore_state(&pending, "main").is_none());
}

#[test]
fn the_main_window_is_expected_even_without_a_state() {
    let mut pending = PendingRestoreState::new();
    let secondary =
        restore_session_multi_window_at(&mut pending, session(vec![]), NOW, true).unwrap();
    assert!(secondary.is_empty());
    assert!(get_window_restore_state(&pending, "main").is_none());
    assert!(!pending.all_complete());
    assert!(mark_window_restore_complete(&mut pending, "main"));
}

#[test]
fn a_start_that_is_refused_leaves_the_staging_alone() {
    let mut pending = PendingRestoreState::new();
    pending.stage(
        vec![("main".to_string(), window("main", true, "kept"))],
        labels(&["main"]),
    );
    let fresh = || session(vec![window("main", true, "m"), window("doc-1", false, "one")]);
    assert_eq!(
        restore_session_multi_window_at(&mut pending, fresh(), NOW, false).unwrap_err(),
        HotExitError::MainWindowNotFound
    );
    let mut stale = fresh();
    stale.timestamp = NOW - 8 * 86_400;
    assert_eq!(
        restore_session_multi_window_at(&mut pending, stale, NOW, true).unwrap_err(),
        HotExitError::StaleSession
    );
    let mut newer = fresh();
    newer.version = 2;
    assert_eq!(
        restore_session_multi_window_at(&mut pending, newer, NOW, true).unwrap_err(),
        HotExitError::IncompatibleVersion { version: 2 }
    );
    let mut zero = fresh();
    zero.version = 0;
    // The session is judged before the main window is asked for.
    assert_eq!(
        restore_session_multi_window_at(&mut pending, zero, NOW, false).unwrap_err(),
        HotExitError::UnsupportedVersion { version: 0 }
    );
    assert_eq!(tab_of(&pending, "main").as_deref(), Some("kept"));
    assert!(get_window_restore_state(&pending, "doc-1").is_none());

    let now = chrono::Utc::now().timestamp();
    let mut old = fresh();
    old.timestamp = now - 8 * 86_400;
    assert_eq!(
        restore_session_multi_window(&mut pending, old, true).unwrap_err(),
        HotExitError::StaleSession
    );
    assert_eq!(tab_of(&pending, "main").as_deref(), Some("kept"));
    let mut recent = fresh();
    recent.timestamp = now - 60;
    let secondary = restore_session_multi_window(&mut pending, recent, true).unwrap();
    assert_eq!(secondary.len(), 1);
    assert_eq!(tab_of(&pending, "main").as_deref(), Some("m"));
}
