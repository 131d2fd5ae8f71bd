//! The pull-based hand-off between a restore and the windows it restores.
//!
//! A restore stages one state per window label, together with the set of
//! labels that are expected to report back. Each window then pulls its own
//! state by label, as often as it likes, and reports once it has applied
//! it. The restore is complete when every expected label has reported.

use vstd::prelude::*;

use crate::session::{WindowState, WindowStateView};

verus! {

/// The map that a list of staged pairs stands for: each pair is inserted in
/// turn, so a later pair takes the place of an earlier one under the same
/// label.
pub open spec fn staged_map(pairs: Seq<(Seq<char>, WindowStateView)>) -> Map<
    Seq<char>,
    WindowStateView,
>
    decreases pairs.len(),
{
    if pairs.len() == 0 {
        Map::empty()
    } else {
        staged_map(pairs.drop_last()).insert(pairs.last().0, pairs.last().1)
    }
}

/// Mathematical model of [`PendingRestoreState`].
pub struct PendingRestoreView {
    /// The staged state of each window, by label.
    pub window_states: Map<Seq<char>, WindowStateView>,
    /// The labels that are expected to report completion.
    pub expected_labels: Set<Seq<char>>,
    /// The expected labels that have reported completion.
    pub completed_windows: Set<Seq<char>>,
}

impl PendingRestoreView {
    /// Nothing staged, nothing expected, nothing completed.
    pub open spec fn empty() -> PendingRestoreView {
        PendingRestoreView {
            window_states: Map::empty(),
            expected_labels: Set::empty(),
            completed_windows: Set::empty(),
        }
    }

    /// A fresh round: the given pairs staged, nothing completed yet.
    pub open spec fn staged(
        pairs: Seq<(Seq<char>, WindowStateView)>,
        expected: Seq<Seq<char>>,
    ) -> PendingRestoreView {
        PendingRestoreView {
            window_states: staged_map(pairs),
            expected_labels: expected.to_set(),
            completed_windows: Set::empty(),
        }
    }

    /// Only windows that are expected are counted as completed.
    pub open spec fn well_formed(self) -> bool {
        self.completed_windows.subset_of(self.expected_labels)
    }

    /// Every expected window has reported, and at least one was expected.
    pub open spec fn all_complete(self) -> bool {
        &&& exists|label: Seq<char>| self.expected_labels.contains(label)
        &&& self.expected_labels.subset_of(self.completed_windows)
    }

    /// The state after `label` has reported. A report from a window that
    /// was not expected changes nothing.
    pub open spec fn marked(self, label: Seq<char>) -> PendingRestoreView {
        if self.expected_labels.contains(label) {
            PendingRestoreView {
                completed_windows: self.completed_windows.insert(label),
                ..self
            }
        } else {
            self
        }
    }

    /// The state once `state` is staged for the window `label`: the state
    /// is found under the label, in place of what was there, and the
    /// window is expected. Which windows have completed does not change.
    pub open spec fn with_window(self, label: Seq<char>, state: WindowStateView) -> PendingRestoreView {
        PendingRestoreView {
            window_states: self.window_states.insert(label, state),
            expected_labels: self.expected_labels.insert(label),
            completed_windows: self.completed_windows,
        }
    }

    /// The state once the window `label` is forgotten: nothing is staged
    /// for it, and it is neither expected nor completed.
    pub open spec fn without_window(self, label: Seq<char>) -> PendingRestoreView {
        PendingRestoreView {
            window_states: self.window_states.remove(label),
            expected_labels: self.expected_labels.remove(label),
            completed_windows: self.completed_windows.remove(label),
        }
    }

    /// The state after the labels of `order` have reported one after another.
    pub open spec fn marked_all(self, order: Seq<Seq<char>>) -> PendingRestoreView
        decreases order.len(),
    {
        if order.len() == 0 {
            self
        } else {
            self.marked_all(order.drop_last()).marked(order.last())
        }
    }
}

/// Staged window states and the bookkeeping of which windows are done.
///
/// The fields are private: all changes go through the operations below.
#[derive(Debug)]
pub struct PendingRestoreState {
    /// Staged pairs in the order they were staged; the last pair under a
    /// label is the one in force.
    entries: Vec<(String, WindowState)>,
    expected: Vec<String>,
    completed: Vec<String>,
}

impl View for PendingRestoreState {
    type V = PendingRestoreView;

    closed spec fn view(&self) -> PendingRestoreView {
        PendingRestoreView {
            window_states: staged_map(self.entries.deep_view()),
            expected_labels: self.expected.deep_view().to_set(),
            completed_windows: self.completed.deep_view().to_set(),
        }
    }
}

impl Default for PendingRestoreState {
    fn default() -> (state: Self)
        ensures
            state@ == PendingRestoreView::empty(),
    {
        PendingRestoreState::new()
    }
}

fn holds_label(labels: &Vec<String>, label: &String) -> (r: bool)
    ensures
        r == labels.deep_view().to_set().contains(label@),
{
    let mut i: usize = 0;
    while i < labels.len()
        invariant
            i <= labels.len(),
            forall|j: int| 0 <= j < i ==> labels.deep_view()[j] != label@,
        decreases labels.len() - i,
    {
        if labels[i] == *label {
            assert(labels.deep_view()[i as int] == label@);
            return true;
        }
        i += 1;
    }
    false
}

/// The labels but for `label`.
fn without_label(labels: Vec<String>, label: &String) -> (kept: Vec<String>)
    ensures
        kept.deep_view().to_set() == labels.deep_view().to_set().remove(label@),
{
    let ghost views = labels.deep_view();
    let ghost all = labels@;
    let mut kept: Vec<String> = Vec::new();
    proof {
        assert(views.take(0) =~= Seq::empty());
        assert(kept.deep_view() =~= Seq::empty());
        assert(kept.deep_view().to_set() =~= views.take(0).to_set().remove(label@));
    }
    for item in it: labels
        invariant
            it.seq() == all,
            all.len() == views.len(),
            forall|j: int| 0 <= j < all.len() ==> (#[trigger] all[j])@ == views[j],
            kept.deep_view().to_set() == views.take(it.index() as int).to_set().remove(label@),
    {
        let ghost before = kept.deep_view();
        let ghost i = it.index() as int;
        proof {
            assert(views.take(i + 1) =~= views.take(i).push(item@));
            views.take(i).lemma_push_to_set_commute(item@);
        }
        if item != *label {
            kept.push(item);
            proof {
                assert(kept.deep_view() =~= before.push(item@));
                before.lemma_push_to_set_commute(item@);
            }
        }
        assert(kept.deep_view().to_set() =~= views.take(i + 1).to_set().remove(label@));
    }
    assert(views.take(views.len() as int) =~= views);
    kept
}

/// The pairs but for those under `label`.
fn without_pairs(pairs: Vec<(String, WindowState)>, label: &String) -> (kept: Vec<
    (String, WindowState),
>)
    ensures
        staged_map(kept.deep_view()) == staged_map(pairs.deep_view()).remove(label@),
{
    let ghost views = pairs.deep_view();
    let ghost all = pairs@;
    let mut kept: Vec<(String, WindowState)> = Vec::new();
    proof {
        assert(views.take(0) =~= Seq::empty());
        assert(kept.deep_view() =~= Seq::empty());
        assert(staged_map(kept.deep_view()) =~= staged_map(views.take(0)).remove(label@));
    }
    for pair in it: pairs
        invariant
            it.seq() == all,
            all.len() == views.len(),
            forall|j: int| 0 <= j < all.len() ==> (#[trigger] all[j]).deep_view() == views[j],
            staged_map(kept.deep_view()) == staged_map(views.take(it.index() as int)).remove(
                label@,
            ),
    {
        let ghost before = kept.deep_view();
        let ghost i = it.index() as int;
        proof {
            assert(pair.deep_view() == views[i]);
            assert(views.take(i + 1).drop_last() =~= views.take(i));
            assert(views.take(i + 1).last() == views[i]);
        }
        if pair.0 != *label {
            kept.push(pair);
            proof {
                assert(kept.deep_view().drop_last() =~= before);
                assert(kept.deep_view().last() == views[i]);
            }
        }
        assert(staged_map(kept.deep_view()) =~= staged_map(views.take(i + 1)).remove(label@));
    }
    assert(views.take(views.len() as int) =~= views);
    kept
}

impl PendingRestoreState {
    /// Only windows that are expected are counted as completed.
    #[verifier::type_invariant]
    spec fn completed_are_expected(self) -> bool {
        self.completed.deep_view().to_set().subset_of(self.expected.deep_view().to_set())
    }

    /// A state with nothing staged.
    pub fn new() -> (state: Self)
        ensures
            state@ == PendingRestoreView::empty(),
            state@.well_formed(),
    {
        let state = PendingRestoreState {
            entries: Vec::new(),
            expected: Vec::new(),
            completed: Vec::new(),
        };
        assert(state.expected.deep_view().to_set() =~= Set::<Seq<char>>::empty());
        assert(state.completed.deep_view().to_set() =~= Set::<Seq<char>>::empty());
        assert(state.entries.deep_view() =~= Seq::empty());
        state
    }

    /// Forgets everything that was staged, expected or completed.
    pub fn clear(&mut self)
        ensures
            final(self)@ == PendingRestoreView::empty(),
            final(self)@.well_formed(),
    {
        let completed: Vec<String> = Vec::new();
        let expected: Vec<String> = Vec::new();
        let entries: Vec<(String, WindowState)> = Vec::new();
        proof {
            assert(completed.deep_view().to_set() =~= Set::<Seq<char>>::empty());
            assert(expected.deep_view().to_set() =~= Set::<Seq<char>>::empty());
            assert(entries.deep_view() =~= Seq::empty());
        }
        self.completed = completed;
        self.expected = expected;
        self.entries = entries;
    }

    /// Starts a new round: whatever an earlier round left is dropped, the
    /// given pairs are staged and the given labels are expected.
    pub fn stage(&mut self, windows: Vec<(String, WindowState)>, expected_labels: Vec<String>)
        ensures
            final(self)@ == PendingRestoreView::staged(
                windows.deep_view(),
                expected_labels.deep_view(),
            ),
            final(self)@.well_formed(),
    {
        let completed: Vec<String> = Vec::new();
        assert(completed.deep_view().to_set() =~= Set::<Seq<char>>::empty());
        self.completed = completed;
        self.expected = expected_labels;
        self.entries = windows;
    }

    /// Stages a state for one more window and expects that window to
    /// report. What is staged for other windows stays.
    pub fn stage_window(&mut self, label: String, state: WindowState)
        ensures
            final(self)@ == old(self)@.with_window(label@, state@),
            final(self)@.well_formed(),
    {
        proof {
            use_type_invariant(&*self);
        }
        let ghost pairs = self.entries.deep_view();
        let ghost expected_before = self.expected.deep_view();
        let mut entries: Vec<(String, WindowState)> = Vec::new();
        let mut expected: Vec<String> = Vec::new();
        let mut completed: Vec<String> = Vec::new();
        proof {
            assert(expected.deep_view().to_set() =~= Set::<Seq<char>>::empty());
            assert(completed.deep_view().to_set() =~= Set::<Seq<char>>::empty());
        }
        // The completed labels are set aside while the expected ones change.
        core::mem::swap(&mut self.completed, &mut completed);
        core::mem::swap(&mut self.expected, &mut expected);
        core::mem::swap(&mut self.entries, &mut entries);
        expected.push(label.clone());
        entries.push((label, state));
        proof {
            assert(entries.deep_view() =~= pairs.push((label@, state@)));
            assert(entries.deep_view().drop_last() =~= pairs);
            assert(expected.deep_view() =~= expected_before.push(label@));
            expected_before.lemma_push_to_set_commute(label@);
        }
        self.entries = entries;
        self.expected = expected;
        self.completed = completed;
    }

    /// Forgets a window: what is staged for it is dropped, and it is no
    /// longer expected nor counted as completed.
    pub fn forget_window(&mut self, label: &str)
        ensures
            final(self)@ == old(self)@.without_window(label@),
            final(self)@.well_formed(),
    {
        proof {
            use_type_invariant(&*self);
        }
        let key = label.to_owned();
        let mut entries: Vec<(String, WindowState)> = Vec::new();
        let mut expected: Vec<String> = Vec::new();
        let mut completed: Vec<String> = Vec::new();
        proof {
            assert(expected.deep_view().to_set() =~= Set::<Seq<char>>::empty());
            assert(completed.deep_view().to_set() =~= Set::<Seq<char>>::empty());
        }
        core::mem::swap(&mut self.completed, &mut completed);
        core::mem::swap(&mut self.expected, &mut expected);
        core::mem::swap(&mut self.entries, &mut entries);
        self.entries = without_pairs(entries, &key);
        self.expected = without_label(expected, &key);
        self.completed = without_label(completed, &key);
    }

    /// Makes known that only windows that are expected are counted as
    /// completed, whatever was done to the state. Nothing is computed.
    pub(crate) fn known_well_formed(&self)
        ensures
            self@.well_formed(),
    {
        proof {
            use_type_invariant(self);
        }
    }

    /// Whether every expected window has reported. False while nothing is
    /// expected.
    pub fn all_complete(&self) -> (r: bool)
        ensures
            r == self@.all_complete(),
            self@.well_formed(),
    {
        proof {
            use_type_invariant(self);
        }
        if self.expected.len() == 0 {
            assert(self.expected.deep_view().to_set() =~= Set::<Seq<char>>::empty());
            return false;
        }
        assert(self.expected.deep_view().to_set().contains(self.expected.deep_view()[0]));
        let mut i: usize = 0;
        while i < self.expected.len()
            invariant
                i <= self.expected.len(),
                self@.well_formed(),
                forall|j: int|
                    0 <= j < i ==> self.completed.deep_view().to_set().contains(
                        #[trigger] self.expected.deep_view()[j],
                    ),
            decreases self.expected.len() - i,
        {
            if !holds_label(&self.completed, &self.expected[i]) {
                assert(self.expected.deep_view().to_set().contains(
                    self.expected.deep_view()[i as int],
                ));
                return false;
            }
            i += 1;
        }
        true
    }
}

/// Drops all staged state.
pub fn clear_pending_restore(state: &mut PendingRestoreState)
    ensures
        final(state)@ == PendingRestoreView::empty(),
        final(state)@.well_formed(),
{
    state.clear();
}

/// The state staged for a window, if there is one.
///
/// The entry stays where it is: a window that reloads may pull again and
/// gets the same answer.
pub fn get_window_restore_state(state: &PendingRestoreState, window_label: &str) -> (r: Option<
    WindowState,
>)
    ensures
        state@.well_formed(),
        match r {
            Some(w) => state@.window_states.contains_key(window_label@) && w@
                == state@.window_states[window_label@],
            None => !state@.window_states.contains_key(window_label@),
        },
{
    state.known_well_formed();
    let key = window_label.to_owned();
    let ghost pairs = state.entries.deep_view();
    let mut i: usize = state.entries.len();
    assert(pairs.take(i as int) =~= pairs);
    while i > 0
        invariant
            i <= state.entries.len(),
            state@.well_formed(),
            key@ == window_label@,
            pairs == state.entries.deep_view(),
            staged_map(pairs).contains_key(key@) == staged_map(pairs.take(i as int)).contains_key(
                key@,
            ),
            staged_map(pairs).contains_key(key@) ==> staged_map(pairs)[key@] == staged_map(
                pairs.take(i as int),
            )[key@],
        decreases i,
    {
        i -= 1;
        proof {
            let before = pairs.take(i as int + 1);
            assert(before.drop_last() =~= pairs.take(i as int));
            assert(before.last() == pairs[i as int]);
        }
        if state.entries[i].0 == key {
            return Some(state.entries[i].1.clone());
        }
    }
    assert(pairs.take(0) =~= Seq::empty());
    None
}

/// Records that a window has applied its state, and says whether the whole
/// restore is now complete.
///
/// A report from a window that was not expected is ignored.
pub fn mark_window_restore_complete(state: &mut PendingRestoreState, window_label: &str) -> (r:
    bool)
    ensures
        final(state)@ == old(state)@.marked(window_label@),
        final(state)@.well_formed(),
        r == final(state)@.all_complete(),
{
    state.mark(window_label);
    state.all_complete()
}

impl PendingRestoreState {
    /// Counts a window as completed, if it is expected.
    fn mark(&mut self, window_label: &str)
        ensures
            final(self)@ == old(self)@.marked(window_label@),
    {
        proof {
            use_type_invariant(&*self);
        }
        let key = window_label.to_owned();
        if holds_label(&self.expected, &key) {
            let ghost before = self.completed.deep_view();
            let mut completed: Vec<String> = Vec::new();
            assert(completed.deep_view().to_set() =~= Set::<Seq<char>>::empty());
            core::mem::swap(&mut self.completed, &mut completed);
            completed.push(key);
            proof {
                assert(completed.deep_view() =~= before.push(window_label@));
                before.lemma_push_to_set_commute(window_label@);
            }
            self.completed = completed;
        }
    }
}

/// A label is staged exactly when some pair carries it.
pub proof fn lemma_staged_labels(pairs: Seq<(Seq<char>, WindowStateView)>, label: Seq<char>)
    ensures
        staged_map(pairs).contains_key(label) <==> exists|i: int|
            0 <= i < pairs.len() && (#[trigger] pairs[i]).0 == label,
    decreases pairs.len(),
{
    if pairs.len() > 0 {
        let rest = pairs.drop_last();
        lemma_staged_labels(rest, label);
        if staged_map(pairs).contains_key(label) {
            if pairs.last().0 == label {
                assert(pairs[pairs.len() - 1].0 == label);
            } else {
                let i = choose|i: int| 0 <= i < rest.len() && (#[trigger] rest[i]).0 == label;
                assert(pairs[i].0 == label);
            }
        }
        if exists|i: int| 0 <= i < pairs.len() && (#[trigger] pairs[i]).0 == label {
            let i = choose|i: int| 0 <= i < pairs.len() && (#[trigger] pairs[i]).0 == label;
            if i < rest.len() {
                assert(rest[i].0 == label);
            }
        }
    }
}

/// The state found under a label is that of the last pair staged under it.
pub proof fn lemma_staged_state(pairs: Seq<(Seq<char>, WindowStateView)>, i: int)
    requires
        0 <= i < pairs.len(),
        forall|j: int| i < j < pairs.len() ==> (#[trigger] pairs[j]).0 != pairs[i].0,
    ensures
        staged_map(pairs).contains_key(pairs[i].0),
        staged_map(pairs)[pairs[i].0] == pairs[i].1,
    decreases pairs.len(),
{
    if i < pairs.len() - 1 {
        let rest = pairs.drop_last();
        assert(pairs[pairs.len() - 1].0 != pairs[i].0);
        assert forall|j: int| i < j < rest.len() implies (#[trigger] rest[j]).0 != rest[i].0 by {
            assert(pairs[j].0 != pairs[i].0);
        }
        lemma_staged_state(rest, i);
    }
}

/// Once a round is staged, a window whose state was staged in it finds
/// that state, whatever an earlier round had left behind, and a window
/// without a pair in this round finds nothing.
///
/// So a window that is created after its state was staged never sees a
/// missing entry, nor one of an earlier round.
pub proof fn lemma_pull_after_stage(
    pairs: Seq<(Seq<char>, WindowStateView)>,
    expected: Seq<Seq<char>>,
    label: Seq<char>,
)
    ensures
        ({
            let staged = PendingRestoreView::staged(pairs, expected);
            &&& staged.window_states.contains_key(label) <==> exists|i: int|
                0 <= i < pairs.len() && (#[trigger] pairs[i]).0 == label
            &&& forall|i: int|
                0 <= i < pairs.len() && (#[trigger] pairs[i]).0 == label && (forall|j: int|
                    i < j < pairs.len() ==> (#[trigger] pairs[j]).0 != label)
                    ==> staged.window_states[label] == pairs[i].1
        }),
{
    lemma_staged_labels(pairs, label);
    assert forall|i: int|
        0 <= i < pairs.len() && (#[trigger] pairs[i]).0 == label && (forall|j: int|
            i < j < pairs.len() ==> (#[trigger] pairs[j]).0 != label) implies staged_map(
        pairs,
    )[label] == pairs[i].1 by {
        lemma_staged_state(pairs, i);
    }
}

/// A report from a window that was not expected changes nothing, so it
/// cannot make the restore complete.
pub proof fn lemma_unexpected_report_ignored(state: PendingRestoreView, label: Seq<char>)
    requires
        !state.expected_labels.contains(label),
    ensures
        state.marked(label) == state,
        state.marked(label).all_complete() == state.all_complete(),
{
}

/// Reports touch neither the staged states nor the expected set, and the
/// windows completed after a run of reports are those completed before
/// together with the expected ones among the reporters.
pub proof fn lemma_marked_all(state: PendingRestoreView, order: Seq<Seq<char>>)
    ensures
        state.marked_all(order).window_states == state.window_states,
        state.marked_all(order).expected_labels == state.expected_labels,
        state.marked_all(order).completed_windows == state.completed_windows.union(
            order.to_set().intersect(state.expected_labels),
        ),
    decreases order.len(),
{
    if order.len() == 0 {
        assert(order.to_set() =~= Set::<Seq<char>>::empty());
        assert(state.completed_windows.union(order.to_set().intersect(state.expected_labels))
            =~= state.completed_windows);
    } else {
        let rest = order.drop_last();
        lemma_marked_all(state, rest);
        assert forall|l: Seq<char>| order.to_set().contains(l) == (rest.to_set().contains(l) || l
            == order.last()) by {
            if order.contains(l) {
                let j = choose|j: int| 0 <= j < order.len() && order[j] == l;
                if j < rest.len() {
                    assert(rest[j] == l);
                }
            }
            if rest.contains(l) {
                let j = choose|j: int| 0 <= j < rest.len() && rest[j] == l;
                assert(order[j] == l);
            }
            if l == order.last() {
                assert(order[order.len() - 1] == l);
            }
        }
        assert(state.marked_all(order).completed_windows =~= state.completed_windows.union(
            order.to_set().intersect(state.expected_labels),
        ));
    }
}

/// In a fresh round the restore is complete exactly when at least one
/// window is expected and every expected window is among those that have
/// reported, in whatever order they came and whoever else reported.
///
/// So the answer turns true with the report of the last expected window,
/// and not before.
pub proof fn lemma_complete_when_all_reported(state: PendingRestoreView, order: Seq<Seq<char>>)
    requires
        state.completed_windows == Set::<Seq<char>>::empty(),
    ensures
        state.marked_all(order).all_complete() <==> {
            &&& exists|label: Seq<char>| state.expected_labels.contains(label)
            &&& forall|label: Seq<char>|
                state.expected_labels.contains(label) ==> order.contains(label)
        },
{
    lemma_marked_all(state, order);
    let after = state.marked_all(order);
    if after.all_complete() {
        assert forall|label: Seq<char>| state.expected_labels.contains(label) implies order.contains(
            label,
        ) by {
            assert(after.completed_windows.contains(label));
        }
    }
    if forall|label: Seq<char>| state.expected_labels.contains(label) ==> order.contains(label) {
        assert forall|label: Seq<char>|
            after.expected_labels.contains(label) implies after.completed_windows.contains(
            label,
        ) by {
            assert(order.to_set().contains(label));
        }
    }
}

} // verus!
