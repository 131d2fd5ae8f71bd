//! Bringing a saved session back: validation, the choice of what goes
//! where, and the staging of each window's state for it to pull.

use vstd::prelude::*;

use crate::capture::{DOCUMENT_WINDOW_PREFIX, MAIN_WINDOW_LABEL};
use crate::clock::unix_seconds;
use crate::error::HotExitError;
use crate::migration::{can_migrate, migratable, migrate_session, migrated, needs_migration};
use crate::pending::{PendingRestoreState, PendingRestoreView};
use crate::session::{
    stale_at, SessionData, SessionDataView, WindowState, WindowStateView, MAX_SESSION_AGE_DAYS,
    SCHEMA_VERSION,
};
use crate::text::has_prefix;

verus! {

/// The first element of a sequence for which `p` holds.
pub open spec fn first_match<A>(s: Seq<A>, p: spec_fn(A) -> bool) -> Option<A>
    decreases s.len(),
{
    if s.len() == 0 {
        None
    } else if p(s[0]) {
        Some(s[0])
    } else {
        first_match(s.drop_first(), p)
    }
}

/// Where `p` holds at `k` and nowhere before, the first match is the
/// element at `k`.
pub proof fn lemma_first_match_at<A>(s: Seq<A>, p: spec_fn(A) -> bool, k: int)
    requires
        0 <= k < s.len(),
        p(s[k]),
        forall|j: int| 0 <= j < k ==> !p(#[trigger] s[j]),
    ensures
        first_match(s, p) == Some(s[k]),
    decreases s.len(),
{
    if k > 0 {
        let rest = s.drop_first();
        assert(!p(s[0]));
        assert forall|j: int| 0 <= j < k - 1 implies !p(#[trigger] rest[j]) by {
            assert(rest[j] == s[j + 1]);
        }
        lemma_first_match_at(rest, p, k - 1);
    }
}

/// Where `p` holds nowhere, there is no first match.
pub proof fn lemma_first_match_none<A>(s: Seq<A>, p: spec_fn(A) -> bool)
    requires
        forall|j: int| 0 <= j < s.len() ==> !p(#[trigger] s[j]),
    ensures
        first_match(s, p) is None,
    decreases s.len(),
{
    if s.len() > 0 {
        let rest = s.drop_first();
        assert(!p(s[0]));
        assert forall|j: int| 0 <= j < rest.len() implies !p(#[trigger] rest[j]) by {
            assert(rest[j] == s[j + 1]);
        }
        lemma_first_match_none(rest, p);
    }
}

/// What validation makes of a session at time `now`: it is migrated where
/// it is older than the current schema, refused where it is newer, and
/// refused where it is stale.
pub open spec fn prepared(session: SessionDataView, now: int) -> Result<
    SessionDataView,
    HotExitError,
> {
    let current = if session.version < SCHEMA_VERSION {
        migrated(session)
    } else if !migratable(session.version) {
        Err(HotExitError::IncompatibleVersion { version: session.version })
    } else {
        Ok(session)
    };
    match current {
        Err(e) => Err(e),
        Ok(s) => if stale_at(s.timestamp as int, now, MAX_SESSION_AGE_DAYS as int) {
            Err(HotExitError::StaleSession)
        } else {
            Ok(s)
        },
    }
}

/// The window that receives a single-window restore: the main window where
/// it exists, else the first document window in the order given.
pub open spec fn restore_target(labels: Seq<Seq<char>>) -> Option<Seq<char>> {
    if labels.contains(MAIN_WINDOW_LABEL@) {
        Some(MAIN_WINDOW_LABEL@)
    } else {
        first_match(labels, |label: Seq<char>| DOCUMENT_WINDOW_PREFIX@.is_prefix_of(label))
    }
}

/// The first position of a sequence at which `p` holds.
pub open spec fn first_position<A>(s: Seq<A>, p: spec_fn(A) -> bool) -> Option<int>
    decreases s.len(),
{
    if s.len() == 0 {
        None
    } else if p(s[0]) {
        Some(0)
    } else {
        match first_position(s.drop_first(), p) {
            Some(k) => Some(k + 1),
            None => None,
        }
    }
}

/// Where `p` holds at `k` and nowhere before, `k` is the first position.
pub proof fn lemma_first_position_at<A>(s: Seq<A>, p: spec_fn(A) -> bool, k: int)
    requires
        0 <= k < s.len(),
        p(s[k]),
        forall|j: int| 0 <= j < k ==> !p(#[trigger] s[j]),
    ensures
        first_position(s, p) == Some(k),
    decreases s.len(),
{
    if k > 0 {
        let rest = s.drop_first();
        assert(!p(s[0]));
        assert forall|j: int| 0 <= j < k - 1 implies !p(#[trigger] rest[j]) by {
            assert(rest[j] == s[j + 1]);
        }
        lemma_first_position_at(rest, p, k - 1);
    }
}

/// Where `p` holds nowhere, there is no first position.
pub proof fn lemma_first_position_none<A>(s: Seq<A>, p: spec_fn(A) -> bool)
    requires
        forall|j: int| 0 <= j < s.len() ==> !p(#[trigger] s[j]),
    ensures
        first_position(s, p) is None,
    decreases s.len(),
{
    if s.len() > 0 {
        let rest = s.drop_first();
        assert(!p(s[0]));
        assert forall|j: int| 0 <= j < rest.len() implies !p(#[trigger] rest[j]) by {
            assert(rest[j] == s[j + 1]);
        }
        lemma_first_position_none(rest, p);
    }
}

/// The position of the state that the main window is given: the first
/// window flagged as main, else the first window.
pub open spec fn main_position(windows: Seq<WindowStateView>) -> Option<int> {
    match first_position(windows, |w: WindowStateView| w.is_main_window) {
        Some(k) => Some(k),
        None => if windows.len() > 0 {
            Some(0)
        } else {
            None
        },
    }
}

/// The state that the main window is given.
pub open spec fn main_state_of(windows: Seq<WindowStateView>) -> Option<WindowStateView> {
    match main_position(windows) {
        Some(k) => Some(windows[k]),
        None => None,
    }
}

/// The states that need a window of their own: all but the one that the
/// main window is given, in their order.
pub open spec fn secondary_windows(windows: Seq<WindowStateView>) -> Seq<WindowStateView> {
    match main_position(windows) {
        Some(k) => windows.remove(k),
        None => windows,
    }
}

/// The main state and the secondary states part the windows of a session:
/// every window is in one of the two and none in both. Put back at its
/// position among the secondary states, the main state gives the windows
/// as they were.
pub proof fn lemma_plan_parts_the_windows(windows: Seq<WindowStateView>)
    ensures
        match main_position(windows) {
            Some(k) => {
                &&& 0 <= k < windows.len()
                &&& secondary_windows(windows).len() == windows.len() - 1
                &&& secondary_windows(windows).insert(k, windows[k]) == windows
                &&& windows.to_multiset() == secondary_windows(windows).to_multiset().insert(
                    windows[k],
                )
            },
            None => windows.len() == 0 && secondary_windows(windows).len() == 0,
        },
{
    let is_main = |w: WindowStateView| w.is_main_window;
    lemma_first_position_in_range(windows, is_main);
    match main_position(windows) {
        Some(k) => {
            let rest = windows.remove(k);
            assert(rest.insert(k, windows[k]) =~= windows);
            vstd::seq_lib::to_multiset_insert(rest, k, windows[k]);
        },
        None => {},
    }
}

/// A first position lies within the sequence.
pub proof fn lemma_first_position_in_range<A>(s: Seq<A>, p: spec_fn(A) -> bool)
    ensures
        first_position(s, p) matches Some(k) ==> 0 <= k < s.len() && p(s[k]),
    decreases s.len(),
{
    if s.len() > 0 && !p(s[0]) {
        let rest = s.drop_first();
        lemma_first_position_in_range(rest, p);
        match first_position(rest, p) {
            Some(k) => {
                assert(rest[k] == s[k + 1]);
            },
            None => {},
        }
    }
}

/// Validates a session for a restore at time `now`.
pub fn prepare_session_for_restore(session: SessionData, now: i64) -> (r: Result<
    SessionData,
    HotExitError,
>)
    ensures
        match r {
            Ok(s) => prepared(session@, now as int) == Ok::<SessionDataView, HotExitError>(s@),
            Err(e) => prepared(session@, now as int) == Err::<SessionDataView, HotExitError>(e),
        },
        r matches Ok(s) ==> s@ == (SessionDataView { version: SCHEMA_VERSION, ..session@ }),
{
    let session = if needs_migration(&session) {
        match migrate_session(session) {
            Ok(s) => s,
            Err(e) => {
                return Err(e);
            },
        }
    } else if !can_migrate(session.version) {
        return Err(HotExitError::IncompatibleVersion { version: session.version });
    } else {
        session
    };
    if session.is_stale_at(now, MAX_SESSION_AGE_DAYS) {
        return Err(HotExitError::StaleSession);
    }
    Ok(session)
}

fn find_restore_target(window_labels: &Vec<String>) -> (r: Option<String>)
    ensures
        r.deep_view() == restore_target(window_labels.deep_view()),
{
    let ghost labels = window_labels.deep_view();
    let ghost is_document = |label: Seq<char>| DOCUMENT_WINDOW_PREFIX@.is_prefix_of(label);
    let main = MAIN_WINDOW_LABEL.to_owned();
    let mut i: usize = 0;
    while i < window_labels.len()
        invariant
            i <= window_labels.len(),
            labels == window_labels.deep_view(),
            main@ == MAIN_WINDOW_LABEL@,
            forall|j: int| 0 <= j < i ==> labels[j] != MAIN_WINDOW_LABEL@,
        decreases window_labels.len() - i,
    {
        if window_labels[i] == main {
            assert(labels[i as int] == MAIN_WINDOW_LABEL@);
            return Some(main);
        }
        i += 1;
    }
    let mut k: usize = 0;
    while k < window_labels.len()
        invariant
            k <= window_labels.len(),
            labels == window_labels.deep_view(),
            is_document == |label: Seq<char>| DOCUMENT_WINDOW_PREFIX@.is_prefix_of(label),
            !labels.contains(MAIN_WINDOW_LABEL@),
            forall|j: int| 0 <= j < k ==> !is_document(#[trigger] labels[j]),
        decreases window_labels.len() - k,
    {
        if has_prefix(window_labels[k].as_str(), DOCUMENT_WINDOW_PREFIX) {
            proof {
                lemma_first_match_at(labels, is_document, k as int);
            }
            return Some(window_labels[k].clone());
        }
        k += 1;
    }
    proof {
        lemma_first_match_none(labels, is_document);
    }
    None
}

fn find_main_state(windows: &Vec<WindowState>) -> (r: Option<usize>)
    ensures
        match r {
            Some(k) => k < windows.len() && main_position(windows.deep_view()) == Some(k as int),
            None => main_position(windows.deep_view()) is None,
        },
{
    let ghost views = windows.deep_view();
    let ghost is_main = |w: WindowStateView| w.is_main_window;
    let mut i: usize = 0;
    while i < windows.len()
        invariant
            i <= windows.len(),
            views == windows.deep_view(),
            is_main == |w: WindowStateView| w.is_main_window,
            forall|j: int| 0 <= j < i ==> !is_main(#[trigger] views[j]),
        decreases windows.len() - i,
    {
        if windows[i].is_main_window {
            proof {
                assert(is_main(views[i as int]));
                lemma_first_position_at(views, is_main, i as int);
            }
            return Some(i);
        }
        i += 1;
    }
    proof {
        lemma_first_position_none(views, is_main);
    }
    if windows.len() > 0 {
        Some(0)
    } else {
        None
    }
}

fn with_label(state: WindowState, label: String) -> (r: WindowState)
    ensures
        r@ == state@.with_label(label@),
{
    let mut state = state;
    state.window_label = label;
    state
}

fn rekeyed(state: WindowState, label: String, is_main: bool) -> (r: WindowState)
    ensures
        r@ == state@.rekeyed(label@, is_main),
{
    let mut state = state;
    state.window_label = label;
    state.is_main_window = is_main;
    state
}

/// What a single-window restore decides at time `now`: the label of the
/// window to signal and the state staged for it, or why nothing is restored.
pub open spec fn restore_plan(labels: Seq<Seq<char>>, session: SessionDataView, now: int) -> Result<
    (Seq<char>, WindowStateView),
    HotExitError,
> {
    match prepared(session, now) {
        Err(e) => Err(e),
        Ok(s) => match restore_target(labels) {
            None => Err(HotExitError::WindowNotFound),
            Some(target) => match main_state_of(s.windows) {
                None => Err(HotExitError::EmptySession),
                Some(w) => Ok((target, w.with_label(target))),
            },
        },
    }
}

/// Whether `r` and `after` are what a single-window restore at time `now`
/// returns and leaves staged.
pub open spec fn restore_session_result(
    before: PendingRestoreView,
    labels: Seq<Seq<char>>,
    session: SessionDataView,
    now: int,
    r: Result<Seq<char>, HotExitError>,
    after: PendingRestoreView,
) -> bool {
    match restore_plan(labels, session, now) {
        Ok((target, state)) => {
            &&& r == Ok::<Seq<char>, HotExitError>(target)
            &&& after == PendingRestoreView::staged(seq![(target, state)], seq![target])
        },
        Err(e) => r == Err::<Seq<char>, HotExitError>(e) && after == before,
    }
}

/// The view of a restore's answer.
pub open spec fn target_view(r: Result<String, HotExitError>) -> Result<Seq<char>, HotExitError> {
    match r {
        Ok(label) => Ok(label@),
        Err(e) => Err(e),
    }
}

/// Restores a session into one window, at time `now`.
///
/// `window_labels` lists the windows that exist. On success the state is
/// staged under the label returned, that label alone is expected to
/// report, and the caller signals that window to pull its state. On
/// failure nothing that was staged before is touched.
pub fn restore_session_at(
    pending: &mut PendingRestoreState,
    window_labels: &Vec<String>,
    session: SessionData,
    now: i64,
) -> (r: Result<String, HotExitError>)
    ensures
        restore_session_result(
            old(pending)@,
            window_labels.deep_view(),
            session@,
            now as int,
            target_view(r),
            final(pending)@,
        ),
        final(pending)@.well_formed(),
{
    pending.known_well_formed();
    let session = match prepare_session_for_restore(session, now) {
        Ok(s) => s,
        Err(e) => {
            return Err(e);
        },
    };
    let target = match find_restore_target(window_labels) {
        Some(t) => t,
        None => {
            return Err(HotExitError::WindowNotFound);
        },
    };
    let at = match find_main_state(&session.windows) {
        Some(k) => k,
        None => {
            return Err(HotExitError::EmptySession);
        },
    };
    let mut windows = session.windows;
    let chosen = windows.swap_remove(at);
    let state = with_label(chosen, target.clone());
    let mut staged: Vec<(String, WindowState)> = Vec::new();
    staged.push((target.clone(), state));
    let mut expected: Vec<String> = Vec::new();
    expected.push(target.clone());
    assert(staged.deep_view() =~= seq![(target@, state@)]);
    assert(expected.deep_view() =~= seq![target@]);
    pending.stage(staged, expected);
    Ok(target)
}

/// Restores a session into one window, by the wall clock.
///
/// The clock is read once; all else is as [`restore_session_at`] says for
/// the instant read.
pub fn restore_session(
    pending: &mut PendingRestoreState,
    window_labels: &Vec<String>,
    session: SessionData,
) -> (r: Result<String, HotExitError>)
    ensures
        exists|now: i64| #[trigger]
            restore_session_result(
                old(pending)@,
                window_labels.deep_view(),
                session@,
                now as int,
                target_view(r),
                final(pending)@,
            ),
        final(pending)@.well_formed(),
{
    let now: i64 = unix_seconds();
    restore_session_at(pending, window_labels, session, now)
}


/// What a multi-window restore has to do once the session is validated.
#[derive(Debug)]
pub struct MultiWindowPlan {
    /// The state for the main window, if the session holds any window.
    pub main_state: Option<WindowState>,
    /// The states for which a new window is to be created, in order.
    pub secondary: Vec<WindowState>,
}

/// What a multi-window restore reports back.
#[derive(Debug)]
pub struct RestoreMultiWindowResult {
    /// The labels of the windows that were created, in order.
    pub windows_created: Vec<String>,
}

/// What a multi-window restore plans at time `now`: the state for the main
/// window and the states that need a window of their own.
///
/// The session is validated first. Then the main window must exist.
pub open spec fn multi_window_plan(session: SessionDataView, now: int, main_exists: bool) -> Result<
    (Option<WindowStateView>, Seq<WindowStateView>),
    HotExitError,
> {
    match prepared(session, now) {
        Err(e) => Err(e),
        Ok(s) => if !main_exists {
            Err(HotExitError::MainWindowNotFound)
        } else {
            Ok((main_state_of(s.windows), secondary_windows(s.windows)))
        },
    }
}

/// Whether `r` is what planning a multi-window restore at `now` returns.
pub open spec fn multi_window_plan_result(
    session: SessionDataView,
    now: int,
    main_exists: bool,
    r: Result<MultiWindowPlan, HotExitError>,
) -> bool {
    match r {
        Ok(plan) => multi_window_plan(session, now, main_exists) == Ok::<
            (Option<WindowStateView>, Seq<WindowStateView>),
            HotExitError,
        >((plan.main_state.deep_view(), plan.secondary.deep_view())),
        Err(e) => multi_window_plan(session, now, main_exists) == Err::<
            (Option<WindowStateView>, Seq<WindowStateView>),
            HotExitError,
        >(e),
    }
}

/// Plans a multi-window restore at time `now`.
///
/// `main_window_exists` says whether the host has a main window.
pub fn plan_multi_window_restore_at(session: SessionData, now: i64, main_window_exists: bool) -> (r:
    Result<MultiWindowPlan, HotExitError>)
    ensures
        multi_window_plan_result(session@, now as int, main_window_exists, r),
{
    let session = match prepare_session_for_restore(session, now) {
        Ok(s) => s,
        Err(e) => {
            return Err(e);
        },
    };
    if !main_window_exists {
        return Err(HotExitError::MainWindowNotFound);
    }
    let ghost views = session.windows.deep_view();
    let mut secondary = session.windows;
    let main_state = match find_main_state(&secondary) {
        Some(k) => {
            let chosen = secondary.remove(k);
            assert(secondary.deep_view() =~= views.remove(k as int));
            Some(chosen)
        },
        None => None,
    };
    Ok(MultiWindowPlan { main_state, secondary })
}

/// Plans a multi-window restore by the wall clock.
///
/// The clock is read once; all else is as [`plan_multi_window_restore_at`]
/// says for the instant read.
pub fn plan_multi_window_restore(session: SessionData, main_window_exists: bool) -> (r: Result<
    MultiWindowPlan,
    HotExitError,
>)
    ensures
        exists|now: i64| #[trigger]
            multi_window_plan_result(session@, now as int, main_window_exists, r),
{
    let now: i64 = unix_seconds();
    plan_multi_window_restore_at(session, now, main_window_exists)
}

/// The pair staged for the main window: its state under the main label and
/// flagged as main.
pub open spec fn main_pair(main_state: Option<WindowStateView>) -> Seq<
    (Seq<char>, WindowStateView),
> {
    match main_state {
        Some(w) => seq![(MAIN_WINDOW_LABEL@, w.rekeyed(MAIN_WINDOW_LABEL@, true))],
        None => Seq::empty(),
    }
}

/// What the start of a multi-window restore leaves staged: the state of
/// the main window, if there is one, and nothing else. The main window
/// alone is expected.
pub open spec fn multi_window_start(main_state: Option<WindowStateView>) -> PendingRestoreView {
    PendingRestoreView::staged(main_pair(main_state), seq![MAIN_WINDOW_LABEL@])
}

/// Whether `r` and `after` are what the start of a multi-window restore
/// at time `now` returns and leaves staged: where the plan fails, its
/// error and the staging as it was; where it succeeds, the secondary
/// states of the plan and the staging of its main state.
pub open spec fn multi_window_start_result(
    before: PendingRestoreView,
    session: SessionDataView,
    now: int,
    main_exists: bool,
    r: Result<Seq<WindowStateView>, HotExitError>,
    after: PendingRestoreView,
) -> bool {
    match multi_window_plan(session, now, main_exists) {
        Ok((main_state, secondary)) => {
            &&& r == Ok::<Seq<WindowStateView>, HotExitError>(secondary)
            &&& after == multi_window_start(main_state)
        },
        Err(e) => r == Err::<Seq<WindowStateView>, HotExitError>(e) && after == before,
    }
}

/// The model of what the start of a multi-window restore returns.
pub open spec fn secondary_view(r: Result<Vec<WindowState>, HotExitError>) -> Result<
    Seq<WindowStateView>,
    HotExitError,
> {
    match r {
        Ok(secondary) => Ok(secondary.deep_view()),
        Err(e) => Err(e),
    }
}

/// Stages the main state of a plan and hands out its secondary states.
fn start_with_plan(pending: &mut PendingRestoreState, plan: MultiWindowPlan) -> (secondary: Vec<
    WindowState,
>)
    ensures
        final(pending)@ == multi_window_start(plan.main_state.deep_view()),
        final(pending)@.well_formed(),
        secondary.deep_view() == plan.secondary.deep_view(),
{
    let mut staged: Vec<(String, WindowState)> = Vec::new();
    let mut expected: Vec<String> = Vec::new();
    expected.push(MAIN_WINDOW_LABEL.to_owned());
    match plan.main_state {
        Some(state) => {
            staged.push(
                (MAIN_WINDOW_LABEL.to_owned(), rekeyed(state, MAIN_WINDOW_LABEL.to_owned(), true)),
            );
        },
        None => {},
    }
    proof {
        assert(staged.deep_view() =~= main_pair(plan.main_state.deep_view()));
        assert(expected.deep_view() =~= seq![MAIN_WINDOW_LABEL@]);
    }
    pending.stage(staged, expected);
    plan.secondary
}

/// Starts a multi-window restore at time `now`.
///
/// The session is validated and the main window must exist; where either
/// fails, nothing that was staged before is touched. Otherwise whatever
/// an earlier round left staged is dropped. The state of the main window
/// is staged under the main label, and the main window is expected
/// whether or not it has a state. The states that come back are those for
/// which the host is to create a window, in order. For each of them the
/// host picks the label of the new window, stages the state with
/// [`stage_secondary`], and only then builds the window, so that the
/// window finds its state however early it pulls. When all windows are
/// built the host signals the main window.
pub fn restore_session_multi_window_at(
    pending: &mut PendingRestoreState,
    session: SessionData,
    now: i64,
    main_window_exists: bool,
) -> (r: Result<Vec<WindowState>, HotExitError>)
    ensures
        multi_window_start_result(
            old(pending)@,
            session@,
            now as int,
            main_window_exists,
            secondary_view(r),
            final(pending)@,
        ),
        final(pending)@.well_formed(),
{
    match plan_multi_window_restore_at(session, now, main_window_exists) {
        Ok(plan) => Ok(start_with_plan(pending, plan)),
        Err(e) => {
            pending.known_well_formed();
            Err(e)
        },
    }
}

/// Starts a multi-window restore by the wall clock.
///
/// The clock is read once; all else is as
/// [`restore_session_multi_window_at`] says for the instant read.
pub fn restore_session_multi_window(
    pending: &mut PendingRestoreState,
    session: SessionData,
    main_window_exists: bool,
) -> (r: Result<Vec<WindowState>, HotExitError>)
    ensures
        exists|now: i64| #[trigger]
            multi_window_start_result(
                old(pending)@,
                session@,
                now as int,
                main_window_exists,
                secondary_view(r),
                final(pending)@,
            ),
        final(pending)@.well_formed(),
{
    let now: i64 = unix_seconds();
    restore_session_multi_window_at(pending, session, now, main_window_exists)
}

/// Stages the state for a window that is about to be created under
/// `label`: the state is found under that label, flagged as not main, and
/// the window is expected to report. What is staged for other windows
/// stays as it is.
pub fn stage_secondary(pending: &mut PendingRestoreState, state: WindowState, label: String)
    ensures
        final(pending)@ == old(pending)@.with_window(label@, state@.rekeyed(label@, false)),
        final(pending)@.well_formed(),
{
    let staged = rekeyed(state, label.clone(), false);
    pending.stage_window(label, staged);
}

/// Takes back what was staged for a window that could not be created: its
/// state is gone, and the window is no longer expected, since a window
/// that does not exist cannot report.
pub fn drop_failed(pending: &mut PendingRestoreState, label: &str)
    ensures
        final(pending)@ == old(pending)@.without_window(label@),
        final(pending)@.well_formed(),
{
    pending.forget_window(label);
}

impl RestoreMultiWindowResult {
    /// A result with no window created yet.
    pub fn new() -> (r: Self)
        ensures
            r.windows_created@.len() == 0,
    {
        RestoreMultiWindowResult { windows_created: Vec::new() }
    }
}

/// Settles the attempt to create the window `label`, whose state was
/// staged before: a window that was created is listed in the result, and
/// one that was not is dropped from the staging.
pub fn settle_secondary(
    pending: &mut PendingRestoreState,
    result: &mut RestoreMultiWindowResult,
    label: String,
    created: bool,
)
    ensures
        final(pending)@ == if created {
            old(pending)@
        } else {
            old(pending)@.without_window(label@)
        },
        final(result).windows_created.deep_view() == if created {
            old(result).windows_created.deep_view().push(label@)
        } else {
            old(result).windows_created.deep_view()
        },
        final(pending)@.well_formed(),
{
    pending.known_well_formed();
    if created {
        let ghost before = result.windows_created.deep_view();
        result.windows_created.push(label);
        assert(result.windows_created.deep_view() =~= before.push(label@));
    } else {
        drop_failed(pending, label.as_str());
    }
}

/// A window finds its state from the moment the state is staged: whatever
/// was staged before, in this round or an earlier one, a pull under the
/// label yields the state staged for it, under that label and flagged as
/// not main, and the window is expected.
pub proof fn lemma_staged_window_finds_its_state(
    before: PendingRestoreView,
    label: Seq<char>,
    state: WindowStateView,
)
    ensures
        ({
            let after = before.with_window(label, state.rekeyed(label, false));
            &&& after.window_states.contains_key(label)
            &&& after.window_states[label] == state.rekeyed(label, false)
            &&& after.expected_labels.contains(label)
        }),
{
}

/// What is staged for a window is not touched when another window is
/// staged or dropped.
pub proof fn lemma_other_windows_leave_it_alone(
    before: PendingRestoreView,
    label: Seq<char>,
    other: Seq<char>,
    state: WindowStateView,
)
    requires
        other != label,
    ensures
        ({
            let staged = before.with_window(other, state);
            let dropped = before.without_window(other);
            &&& staged.window_states.contains_key(label) == before.window_states.contains_key(label)
            &&& dropped.window_states.contains_key(label) == before.window_states.contains_key(
                label,
            )
            &&& before.window_states.contains_key(label) ==> staged.window_states[label]
                == before.window_states[label] && dropped.window_states[label]
                == before.window_states[label]
            &&& staged.expected_labels.contains(label) == before.expected_labels.contains(label)
            &&& dropped.expected_labels.contains(label) == before.expected_labels.contains(label)
        }),
{
}

/// A window that could not be created finds nothing and is not waited for.
pub proof fn lemma_dropped_window_is_gone(before: PendingRestoreView, label: Seq<char>)
    ensures
        ({
            let after = before.without_window(label);
            &&& !after.window_states.contains_key(label)
            &&& !after.expected_labels.contains(label)
            &&& !after.completed_windows.contains(label)
        }),
{
}

/// At the start of a multi-window restore nothing of an earlier round is
/// left: the main window finds the state chosen for it, under the main
/// label and flagged as main, and no other label finds anything.
pub proof fn lemma_start_is_clean(main_state: Option<WindowStateView>, label: Seq<char>)
    ensures
        ({
            let start = multi_window_start(main_state);
            &&& start.expected_labels.contains(MAIN_WINDOW_LABEL@)
            &&& start.completed_windows == Set::<Seq<char>>::empty()
            &&& label != MAIN_WINDOW_LABEL@ ==> !start.window_states.contains_key(label)
                && !start.expected_labels.contains(label)
            &&& main_state matches Some(w) ==> start.window_states.contains_key(MAIN_WINDOW_LABEL@)
                && start.window_states[MAIN_WINDOW_LABEL@] == w.rekeyed(MAIN_WINDOW_LABEL@, true)
            &&& main_state is None ==> !start.window_states.contains_key(MAIN_WINDOW_LABEL@)
        }),
{
    let pairs = main_pair(main_state);
    let expected = seq![MAIN_WINDOW_LABEL@];
    assert(expected[0] == MAIN_WINDOW_LABEL@);
    match main_state {
        Some(w) => {
            assert(pairs.len() == 1);
            assert(pairs.drop_last() =~= Seq::empty());
            assert(crate::pending::staged_map(pairs.drop_last()) =~= Map::empty());
        },
        None => {
            assert(pairs.len() == 0);
        },
    }
    if expected.contains(label) {
        let i = choose|i: int| 0 <= i < expected.len() && expected[i] == label;
        assert(label == MAIN_WINDOW_LABEL@);
    }
}

} // verus!
