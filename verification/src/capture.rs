//! One round of capturing the state of every open document window.
//!
//! The host enumerates its windows and starts a round, broadcasts the
//! round's request, and hands each response to the round as it arrives.
//! When every expected window has answered, or the deadline has passed,
//! the round is finished and yields the session.

use vstd::prelude::*;
use vstd::string::StringExecFns;

use crate::clock::{unix_millis, unix_seconds};
use crate::error::HotExitError;
use crate::session::{SessionData, WindowState, WindowStateView, SCHEMA_VERSION};
use crate::text::{has_prefix, same_text, signed_decimal, signed_decimal_string};
use crate::window_order::{distinct_labels, sort_windows, windows_sorted};

verus! {

/// Label of the main window.
pub const MAIN_WINDOW_LABEL: &'static str = "main";

/// Prefix of the label of every other document window.
pub const DOCUMENT_WINDOW_PREFIX: &'static str = "doc-";

/// Seconds a round waits for its windows.
pub const CAPTURE_TIMEOUT_SECS: u64 = 5;

/// Milliseconds between two looks at the responses while waiting.
pub const RESPONSE_POLL_INTERVAL_MS: u64 = 100;

/// A label names a document window: the main window, or one whose label
/// starts with the document prefix. Auxiliary windows are not captured.
pub open spec fn is_document_label(label: Seq<char>) -> bool {
    label == MAIN_WINDOW_LABEL@ || DOCUMENT_WINDOW_PREFIX@.is_prefix_of(label)
}

/// The labels among those given that name document windows.
pub open spec fn document_labels(labels: Seq<Seq<char>>) -> Set<Seq<char>> {
    labels.to_set().filter(|label: Seq<char>| is_document_label(label))
}

/// The correlation id of the round started at `millis`.
pub open spec fn capture_id_text(millis: int) -> Seq<char> {
    "capture-"@ + signed_decimal(millis)
}

/// Whether a label names a document window.
pub fn is_document_window_label(label: &str) -> (r: bool)
    ensures
        r == is_document_label(label@),
{
    same_text(label, MAIN_WINDOW_LABEL) || has_prefix(label, DOCUMENT_WINDOW_PREFIX)
}

/// The request that is broadcast to all windows.
#[derive(Debug)]
pub struct CaptureRequest {
    pub capture_id: String,
}

/// The answer of one window.
#[derive(Debug)]
pub struct CaptureResponse {
    pub capture_id: String,
    pub window_label: String,
    pub state: WindowState,
}

/// What became of a response.
#[derive(Debug, Clone, Copy, PartialEq, Eq, Structural)]
pub enum ResponseOutcome {
    /// The response was recorded.
    Accepted,
    /// It belongs to another round and was dropped.
    StaleRound,
    /// Its sender is not among the windows of this round; dropped.
    UnexpectedWindow,
    /// Its sender has answered before; dropped.
    Duplicate,
}

/// What the host does next while a round waits for its windows.
#[derive(Debug, Clone, Copy, PartialEq, Eq, Structural)]
pub enum WaitStep {
    /// Every window has answered: finish the round.
    Finish,
    /// The deadline has passed: tell the windows so, and finish the round
    /// with what has come in.
    TimedOut,
    /// Sleep for [`RESPONSE_POLL_INTERVAL_MS`] and look again.
    Poll,
}

/// Mathematical model of [`CaptureRound`].
pub struct CaptureRoundView {
    /// The correlation id of the round.
    pub capture_id: Seq<char>,
    /// The windows that were open when the round began.
    pub expected_windows: Set<Seq<char>>,
    /// The recorded states, in the order in which they arrived.
    pub responses: Seq<WindowStateView>,
}

impl CaptureRoundView {
    /// Whether the window with this label has answered.
    pub open spec fn answered(self, label: Seq<char>) -> bool {
        exists|i: int| 0 <= i < self.responses.len() && (#[trigger] self.responses[i]).window_label
            == label
    }

    /// What becomes of a response, judged in this order: the round it
    /// belongs to, its sender, and whether the sender has answered before.
    pub open spec fn outcome(
        self,
        capture_id: Seq<char>,
        window_label: Seq<char>,
    ) -> ResponseOutcome {
        if capture_id != self.capture_id {
            ResponseOutcome::StaleRound
        } else if !self.expected_windows.contains(window_label) {
            ResponseOutcome::UnexpectedWindow
        } else if self.answered(window_label) {
            ResponseOutcome::Duplicate
        } else {
            ResponseOutcome::Accepted
        }
    }

    /// The round after a response. An accepted state is recorded under the
    /// label of its sender, whatever label it reported for itself.
    pub open spec fn after(
        self,
        capture_id: Seq<char>,
        window_label: Seq<char>,
        state: WindowStateView,
    ) -> CaptureRoundView {
        if self.outcome(capture_id, window_label) == ResponseOutcome::Accepted {
            CaptureRoundView {
                responses: self.responses.push(state.with_label(window_label)),
                ..self
            }
        } else {
            self
        }
    }

    /// Every expected window has answered.
    pub open spec fn complete(self) -> bool {
        forall|label: Seq<char>| self.expected_windows.contains(label) ==> self.answered(label)
    }
}

/// A capture round in progress.
#[derive(Debug)]
pub struct CaptureRound {
    capture_id: String,
    expected_windows: Vec<String>,
    responses: Vec<WindowState>,
}

impl View for CaptureRound {
    type V = CaptureRoundView;

    closed spec fn view(&self) -> CaptureRoundView {
        CaptureRoundView {
            capture_id: self.capture_id@,
            expected_windows: self.expected_windows.deep_view().to_set(),
            responses: self.responses.deep_view(),
        }
    }
}

fn position_of(labels: &Vec<String>, label: &String) -> (r: Option<usize>)
    ensures
        match r {
            Some(i) => i < labels.len() && labels.deep_view()[i as int] == label@,
            None => !labels.deep_view().contains(label@),
        },
{
    let mut i: usize = 0;
    while i < labels.len()
        invariant
            i <= labels.len(),
            forall|j: int| 0 <= j < i ==> labels.deep_view()[j] != label@,
        decreases labels.len() - i,
    {
        if labels[i] == *label {
            return Some(i);
        }
        i += 1;
    }
    None
}

impl CaptureRound {
    /// Every recorded state comes from an expected window, no window is
    /// recorded twice, and no expected window is listed twice.
    #[verifier::type_invariant]
    spec fn well_formed(self) -> bool {
        &&& self.expected_windows.deep_view().no_duplicates()
        &&& distinct_labels(self.responses.deep_view())
        &&& forall|i: int|
            0 <= i < self.responses.len() ==> self.expected_windows.deep_view().contains(
                (#[trigger] self.responses.deep_view()[i]).window_label,
            )
    }

    /// Starts a round at the given time, in milliseconds since the epoch.
    ///
    /// Of the labels given, those of document windows are expected to
    /// answer. With no document window open there is nothing to capture.
    pub fn begin_at(window_labels: &Vec<String>, millis: i64) -> (r: Result<
        CaptureRound,
        HotExitError,
    >)
        ensures
            match r {
                Ok(round) => {
                    &&& round@.capture_id == capture_id_text(millis as int)
                    &&& round@.expected_windows == document_labels(window_labels.deep_view())
                    &&& round@.responses == Seq::<WindowStateView>::empty()
                    &&& exists|i: int|
                        0 <= i < window_labels.len() && is_document_label(
                            #[trigger] window_labels.deep_view()[i],
                        )
                },
                Err(e) => {
                    &&& e == HotExitError::NoWindowsToCapture
                    &&& forall|i: int|
                        0 <= i < window_labels.len() ==> !is_document_label(
                            #[trigger] window_labels.deep_view()[i],
                        )
                },
            },
    {
        let ghost given = window_labels.deep_view();
        let mut expected: Vec<String> = Vec::new();
        let mut i: usize = 0;
        assert(given.take(0) =~= Seq::empty());
        assert(expected.deep_view() =~= Seq::empty());
        assert(expected.deep_view().to_set() =~= document_labels(given.take(0)));
        while i < window_labels.len()
            invariant
                i <= window_labels.len(),
                given == window_labels.deep_view(),
                expected.deep_view().no_duplicates(),
                expected.deep_view().to_set() == document_labels(given.take(i as int)),
            decreases window_labels.len() - i,
        {
            let ghost before = expected.deep_view();
            let ghost seen = given.take(i as int);
            let label = &window_labels[i];
            proof {
                assert(given.take(i as int + 1) =~= seen.push(label@));
                seen.lemma_push_to_set_commute(label@);
            }
            if is_document_window_label(label.as_str()) && position_of(&expected, label).is_none() {
                expected.push(label.clone());
                proof {
                    assert(expected.deep_view() =~= before.push(label@));
                    before.lemma_push_to_set_commute(label@);
                }
            }
            assert(expected.deep_view().to_set() =~= document_labels(seen.push(label@)));
            i += 1;
        }
        assert(given.take(i as int) =~= given);
        if expected.len() == 0 {
            assert forall|j: int| 0 <= j < window_labels.len() implies !is_document_label(
                #[trigger] window_labels.deep_view()[j],
            ) by {
                if is_document_label(given[j]) {
                    assert(given.contains(given[j]));
                    assert(document_labels(given).contains(given[j]));
                    assert(expected.deep_view().contains(given[j]));
                }
            }
            return Err(HotExitError::NoWindowsToCapture);
        }
        let mut capture_id = "capture-".to_owned();
        capture_id.append(signed_decimal_string(millis).as_str());
        let round = CaptureRound { capture_id, expected_windows: expected, responses: Vec::new() };
        proof {
            assert(round.responses.deep_view() =~= Seq::<WindowStateView>::empty());
            let first = round.expected_windows.deep_view()[0];
            assert(round.expected_windows.deep_view().contains(first));
            assert(document_labels(given).contains(first));
            assert(given.contains(first));
            let k = choose|k: int| 0 <= k < given.len() && given[k] == first;
            assert(is_document_label(window_labels.deep_view()[k]));
        }
        Ok(round)
    }

    /// Starts a round now: the clock is read once for the correlation id.
    ///
    /// Whether the round starts, and which windows it expects, does not
    /// depend on the clock.
    pub fn begin(window_labels: &Vec<String>) -> (r: Result<CaptureRound, HotExitError>)
        ensures
            match r {
                Ok(round) => {
                    &&& exists|millis: i64|
                        round@.capture_id == #[trigger] capture_id_text(millis as int)
                    &&& round@.expected_windows == document_labels(window_labels.deep_view())
                    &&& round@.responses == Seq::<WindowStateView>::empty()
                    &&& exists|i: int|
                        0 <= i < window_labels.len() && is_document_label(
                            #[trigger] window_labels.deep_view()[i],
                        )
                },
                Err(e) => {
                    &&& e == HotExitError::NoWindowsToCapture
                    &&& forall|i: int|
                        0 <= i < window_labels.len() ==> !is_document_label(
                            #[trigger] window_labels.deep_view()[i],
                        )
                },
            },
    {
        let millis: i64 = unix_millis();
        CaptureRound::begin_at(window_labels, millis)
    }

    /// The request to broadcast for this round.
    pub fn request(&self) -> (r: CaptureRequest)
        ensures
            r.capture_id@ == self@.capture_id,
    {
        CaptureRequest { capture_id: self.capture_id.clone() }
    }

    /// Takes in one response.
    ///
    /// A response of another round, of a window that is not expected, or
    /// of a window that has answered before is dropped and leaves the
    /// round as it was. Any other is recorded, under its sender's label.
    pub fn accept(&mut self, response: CaptureResponse) -> (outcome: ResponseOutcome)
        ensures
            outcome == old(self)@.outcome(response.capture_id@, response.window_label@),
            final(self)@ == old(self)@.after(
                response.capture_id@,
                response.window_label@,
                response.state@,
            ),
    {
        proof {
            use_type_invariant(&*self);
        }
        if response.capture_id != self.capture_id {
            return ResponseOutcome::StaleRound;
        }
        if position_of(&self.expected_windows, &response.window_label).is_none() {
            return ResponseOutcome::UnexpectedWindow;
        }
        assert(self.expected_windows.deep_view().contains(response.window_label@));
        let mut i: usize = 0;
        while i < self.responses.len()
            invariant
                i <= self.responses.len(),
                *self == *old(self),
                response.capture_id@ == self.capture_id@,
                self.expected_windows.deep_view().contains(response.window_label@),
                forall|j: int|
                    0 <= j < i ==> (#[trigger] self.responses.deep_view()[j]).window_label
                        != response.window_label@,
            decreases self.responses.len() - i,
        {
            if self.responses[i].window_label == response.window_label {
                assert(self.responses.deep_view()[i as int].window_label
                    == response.window_label@);
                return ResponseOutcome::Duplicate;
            }
            i += 1;
        }
        let ghost before = self.responses.deep_view();
        assert(!old(self)@.answered(response.window_label@));
        let mut state = response.state;
        state.window_label = response.window_label;
        let mut responses: Vec<WindowState> = Vec::new();
        core::mem::swap(&mut self.responses, &mut responses);
        responses.push(state);
        proof {
            let now = responses.deep_view();
            assert(now =~= before.push(response.state@.with_label(response.window_label@)));
            assert forall|i: int, j: int| 0 <= i < j < now.len() implies (
            #[trigger] now[i]).window_label != (#[trigger] now[j]).window_label by {
                if j < before.len() {
                    assert(before[i].window_label != before[j].window_label);
                } else {
                    assert(before[i].window_label != response.window_label@);
                }
            }
            assert forall|i: int| 0 <= i < now.len() implies self.expected_windows.deep_view().contains(
                (#[trigger] now[i]).window_label,
            ) by {
                if i < before.len() {
                    assert(self.expected_windows.deep_view().contains(before[i].window_label));
                }
            }
        }
        self.responses = responses;
        ResponseOutcome::Accepted
    }

    /// How many windows have answered so far.
    pub fn response_count(&self) -> (n: usize)
        ensures
            n == self@.responses.len(),
    {
        self.responses.len()
    }

    /// Whether every expected window has answered, so that waiting can end
    /// before the deadline.
    ///
    /// No window is counted twice and none but the expected ones is counted
    /// at all, so all have answered exactly when there are as many
    /// responses as expected windows.
    pub fn is_complete(&self) -> (r: bool)
        ensures
            r == self@.complete(),
            self@.expected_windows.finite(),
            self@.responses.len() <= self@.expected_windows.len(),
            r == (self@.responses.len() == self@.expected_windows.len()),
    {
        proof {
            use_type_invariant(self);
            let expected = self.expected_windows.deep_view();
            let responses = self.responses.deep_view();
            lemma_answered_count(expected, responses);
            if responses.len() == expected.len() {
                assert forall|label: Seq<char>| self@.expected_windows.contains(label) implies self@.answered(
                    label,
                ) by {
                    assert(expected.to_set().contains(label));
                }
            }
            if self@.complete() {
                assert forall|label: Seq<char>| expected.to_set().contains(label) implies exists|i: int|
                    0 <= i < responses.len() && (#[trigger] responses[i]).window_label == label by {
                    assert(self@.answered(label));
                }
            }
        }
        self.responses.len() >= self.expected_windows.len()
    }

    /// Decides how the wait goes on after `waited_ms` milliseconds.
    ///
    /// The wait ends as soon as every window has answered, and at the
    /// latest when [`CAPTURE_TIMEOUT_SECS`] have passed.
    pub fn wait_step(&self, waited_ms: u64) -> (step: WaitStep)
        ensures
            step == if self@.complete() {
                WaitStep::Finish
            } else if waited_ms >= CAPTURE_TIMEOUT_SECS * 1000 {
                WaitStep::TimedOut
            } else {
                WaitStep::Poll
            },
    {
        if self.is_complete() {
            WaitStep::Finish
        } else if waited_ms >= CAPTURE_TIMEOUT_SECS * 1000 {
            WaitStep::TimedOut
        } else {
            WaitStep::Poll
        }
    }

    /// Ends the round and assembles the session, stamped with `timestamp`.
    ///
    /// With at least one response the session holds exactly the recorded
    /// states, the main window first and the others by label, whether or
    /// not every window answered. With none, the capture has failed.
    pub fn finish_at(self, timestamp: i64, vmark_version: String) -> (r: Result<
        SessionData,
        HotExitError,
    >)
        ensures
            self@.responses.len() == 0 <==> r is Err,
            r is Err ==> r == Err::<SessionData, HotExitError>(HotExitError::CaptureTimeout),
            r matches Ok(session) ==> {
                &&& session.version == SCHEMA_VERSION
                &&& session.timestamp == timestamp
                &&& session.vmark_version@ == vmark_version@
                &&& session.workspace is None
                &&& session@.windows.len() == self@.responses.len()
                &&& session@.windows.to_multiset() == self@.responses.to_multiset()
                &&& windows_sorted(session@.windows)
                &&& distinct_labels(session@.windows)
                &&& (exists|i: int|
                    0 <= i < self@.responses.len() && self@.responses[i].is_main_window)
                    ==> session@.windows[0].is_main_window
            },
    {
        proof {
            use_type_invariant(&self);
        }
        if self.responses.len() == 0 {
            return Err(HotExitError::CaptureTimeout);
        }
        let ghost recorded = self.responses.deep_view();
        let windows = sort_windows(self.responses);
        proof {
            lemma_same_windows(recorded, windows.deep_view());
        }
        Ok(
            SessionData {
                version: SCHEMA_VERSION,
                timestamp,
                vmark_version,
                windows,
                workspace: None,
            },
        )
    }

    /// Ends the round and assembles the session, stamped with the time
    /// that the clock shows.
    ///
    /// Everything but the stamp is as [`Self::finish_at`] says.
    pub fn finish(self, vmark_version: String) -> (r: Result<SessionData, HotExitError>)
        ensures
            self@.responses.len() == 0 <==> r is Err,
            r is Err ==> r == Err::<SessionData, HotExitError>(HotExitError::CaptureTimeout),
            r matches Ok(session) ==> {
                &&& session.version == SCHEMA_VERSION
                &&& session.vmark_version@ == vmark_version@
                &&& session.workspace is None
                &&& session@.windows.len() == self@.responses.len()
                &&& session@.windows.to_multiset() == self@.responses.to_multiset()
                &&& windows_sorted(session@.windows)
                &&& distinct_labels(session@.windows)
                &&& (exists|i: int|
                    0 <= i < self@.responses.len() && self@.responses[i].is_main_window)
                    ==> session@.windows[0].is_main_window
            },
    {
        let timestamp: i64 = unix_seconds();
        self.finish_at(timestamp, vmark_version)
    }
}

/// Where every response comes from an expected window and no window has
/// answered twice, there are at most as many responses as expected
/// windows, and exactly as many when every expected window has answered.
proof fn lemma_answered_count(expected: Seq<Seq<char>>, responses: Seq<WindowStateView>)
    requires
        expected.no_duplicates(),
        distinct_labels(responses),
        forall|i: int|
            0 <= i < responses.len() ==> expected.contains((#[trigger] responses[i]).window_label),
    ensures
        expected.to_set().finite(),
        expected.to_set().len() == expected.len(),
        responses.len() <= expected.len(),
        responses.len() == expected.len() <==> forall|label: Seq<char>|
            expected.to_set().contains(label) ==> exists|i: int|
                0 <= i < responses.len() && (#[trigger] responses[i]).window_label == label,
{
    let labels = responses.map_values(|w: WindowStateView| w.window_label);
    assert forall|i: int, j: int| 0 <= i < labels.len() && 0 <= j < labels.len() && i != j implies labels[i]
        != labels[j] by {
        if i < j {
            assert(responses[i].window_label != responses[j].window_label);
        } else {
            assert(responses[j].window_label != responses[i].window_label);
        }
    }
    labels.unique_seq_to_set();
    expected.unique_seq_to_set();
    vstd::seq_lib::seq_to_set_is_finite(labels);
    vstd::seq_lib::seq_to_set_is_finite(expected);
    assert forall|label: Seq<char>| labels.to_set().contains(label) implies expected.to_set().contains(
        label,
    ) by {
        let i = choose|i: int| 0 <= i < labels.len() && labels[i] == label;
        assert(expected.contains(responses[i].window_label));
    }
    vstd::set_lib::lemma_len_subset(labels.to_set(), expected.to_set());
    if responses.len() == expected.len() {
        vstd::set_lib::lemma_subset_equality(labels.to_set(), expected.to_set());
        assert forall|label: Seq<char>| expected.to_set().contains(label) implies exists|i: int|
            0 <= i < responses.len() && (#[trigger] responses[i]).window_label == label by {
            assert(labels.to_set().contains(label));
            let i = choose|i: int| 0 <= i < labels.len() && labels[i] == label;
            assert(responses[i].window_label == label);
        }
    }
    if forall|label: Seq<char>|
        expected.to_set().contains(label) ==> exists|i: int|
            0 <= i < responses.len() && (#[trigger] responses[i]).window_label == label {
        assert forall|label: Seq<char>| expected.to_set().contains(label) implies labels.to_set().contains(
            label,
        ) by {
            let i = choose|i: int|
                0 <= i < responses.len() && (#[trigger] responses[i]).window_label == label;
            assert(labels[i] == label);
        }
        assert(labels.to_set() =~= expected.to_set());
    }
}

/// Two lists that hold the same windows agree on whether the labels are
/// distinct and on whether a main window is among them.
proof fn lemma_same_windows(a: Seq<WindowStateView>, b: Seq<WindowStateView>)
    requires
        a.to_multiset() == b.to_multiset(),
        windows_sorted(b),
    ensures
        a.len() == b.len(),
        distinct_labels(a) ==> distinct_labels(b),
        (exists|i: int| 0 <= i < a.len() && a[i].is_main_window) ==> b[0].is_main_window,
{
    broadcast use vstd::seq_lib::to_multiset_len;

    assert(a.len() == b.len()) by {
        assert(a.to_multiset().len() == a.len());
        assert(b.to_multiset().len() == b.len());
    }
    if exists|i: int| 0 <= i < a.len() && a[i].is_main_window {
        let i = choose|i: int| 0 <= i < a.len() && a[i].is_main_window;
        vstd::seq_lib::to_multiset_contains(a, a[i]);
        vstd::seq_lib::to_multiset_contains(b, a[i]);
        assert(a.contains(a[i]));
        let j = choose|j: int| 0 <= j < b.len() && b[j] == a[i];
        assert(b[j].is_main_window);
        crate::window_order::lemma_main_window_first(b);
    }
    if distinct_labels(a) {
        assert forall|i: int, j: int| 0 <= i < j < b.len() implies (#[trigger] b[i]).window_label
            != (#[trigger] b[j]).window_label by {
            lemma_labels_stay_distinct(a, b, i, j);
        }
    }
}

/// Where the labels of one list are distinct, two places of a list that
/// holds the same windows carry different labels.
proof fn lemma_labels_stay_distinct(
    a: Seq<WindowStateView>,
    b: Seq<WindowStateView>,
    i: int,
    j: int,
)
    requires
        a.to_multiset() == b.to_multiset(),
        0 <= i < j < b.len(),
        distinct_labels(a),
    ensures
        b[i].window_label != b[j].window_label,
{
    broadcast use vstd::multiset::group_multiset_axioms;

    vstd::seq_lib::to_multiset_contains(a, b[i]);
    vstd::seq_lib::to_multiset_contains(b, b[i]);
    vstd::seq_lib::to_multiset_contains(a, b[j]);
    vstd::seq_lib::to_multiset_contains(b, b[j]);
    assert(b.contains(b[i]));
    assert(b.contains(b[j]));
    let p = choose|p: int| 0 <= p < a.len() && a[p] == b[i];
    let q = choose|q: int| 0 <= q < a.len() && a[q] == b[j];
    if p != q {
        if p < q {
            assert(a[p].window_label != a[q].window_label);
        } else {
            assert(a[q].window_label != a[p].window_label);
        }
    } else {
        // Both positions of `b` hold the one window `a[p]`, which `a` holds once.
        let w = a[p];
        vstd::seq_lib::to_multiset_remove(b, j);
        vstd::seq_lib::to_multiset_remove(a, p);
        let a1 = a.remove(p);
        let b1 = b.remove(j);
        assert(b1[i] == w);
        assert(b1.contains(w));
        vstd::seq_lib::to_multiset_contains(b1, w);
        vstd::seq_lib::to_multiset_contains(a1, w);
        assert(a1.contains(w));
        let r = choose|r: int| 0 <= r < a1.len() && a1[r] == w;
        let r0 = if r < p {
            r
        } else {
            r + 1
        };
        assert(a[r0] == w);
        if r0 < p {
            assert(a[r0].window_label != a[p].window_label);
        } else {
            assert(a[p].window_label != a[r0].window_label);
        }
    }
}

} // verus!
