//! Sorting by rank, and the order in which a session lists its windows:
//! the main window first, the others by label.

use vstd::prelude::*;
use vstd::seq_lib::{to_multiset_insert, to_multiset_remove};

use crate::session::{WindowState, WindowStateView};
use crate::text::{
    lemma_lex_irreflexive, lemma_lex_total, lemma_lex_transitive, lex_before, text_before,
};

verus! {

/// `a` is listed strictly before `b`: a main window before any other, and
/// among windows of one kind the smaller label first.
pub open spec fn window_before(a: WindowStateView, b: WindowStateView) -> bool {
    if a.is_main_window != b.is_main_window {
        a.is_main_window
    } else {
        lex_before(a.window_label, b.window_label)
    }
}

/// No window of the list is listed before one that precedes it.
pub open spec fn windows_sorted(windows: Seq<WindowStateView>) -> bool {
    forall|i: int, j: int| 0 <= i < j < windows.len() ==> !window_before(windows[j], windows[i])
}

/// No two windows of the list carry the same label.
pub open spec fn distinct_labels(windows: Seq<WindowStateView>) -> bool {
    forall|i: int, j: int|
        0 <= i < j < windows.len() ==> (#[trigger] windows[i]).window_label != (
        #[trigger] windows[j]).window_label
}

/// Two windows with different labels are never tied: one of them is listed
/// before the other.
pub proof fn lemma_window_before_total(a: WindowStateView, b: WindowStateView)
    requires
        a.window_label != b.window_label,
    ensures
        window_before(a, b) || window_before(b, a),
{
    lemma_lex_total(a.window_label, b.window_label);
}

/// Windows with distinct labels can be listed in one way only: two sorted
/// lists that hold the same windows are the same list.
pub proof fn lemma_listing_is_unique(a: Seq<WindowStateView>, b: Seq<WindowStateView>)
    requires
        windows_sorted(a),
        windows_sorted(b),
        distinct_labels(a),
        a.to_multiset() == b.to_multiset(),
    ensures
        a == b,
    decreases a.len(),
{
    broadcast use vstd::seq_lib::to_multiset_len;

    assert(a.len() == b.len()) by {
        assert(a.to_multiset().len() == a.len());
        assert(b.to_multiset().len() == b.len());
    }
    if a.len() == 0 {
        assert(a =~= b);
    } else {
        vstd::seq_lib::to_multiset_contains(a, a[0]);
        vstd::seq_lib::to_multiset_contains(b, a[0]);
        vstd::seq_lib::to_multiset_contains(a, b[0]);
        vstd::seq_lib::to_multiset_contains(b, b[0]);
        assert(a.contains(a[0]));
        assert(b.contains(b[0]));
        let j = choose|j: int| 0 <= j < b.len() && b[j] == a[0];
        let i = choose|i: int| 0 <= i < a.len() && a[i] == b[0];
        if i > 0 && j > 0 {
            assert(a[0].window_label != a[i].window_label);
            lemma_window_before_total(a[0], a[i]);
            assert(!window_before(a[i], a[0]));
            assert(!window_before(b[j], b[0]));
        }
        assert(a[0] == b[0]);
        let rest_a = a.drop_first();
        let rest_b = b.drop_first();
        assert(rest_a =~= a.remove(0));
        assert(rest_b =~= b.remove(0));
        to_multiset_remove(a, 0);
        to_multiset_remove(b, 0);
        assert forall|p: int, q: int| 0 <= p < q < rest_a.len() implies !window_before(
            rest_a[q],
            rest_a[p],
        ) by {
            assert(!window_before(a[q + 1], a[p + 1]));
        }
        assert forall|p: int, q: int| 0 <= p < q < rest_b.len() implies !window_before(
            rest_b[q],
            rest_b[p],
        ) by {
            assert(!window_before(b[q + 1], b[p + 1]));
        }
        assert forall|p: int, q: int| 0 <= p < q < rest_a.len() implies (
        #[trigger] rest_a[p]).window_label != (#[trigger] rest_a[q]).window_label by {
            assert(a[p + 1].window_label != a[q + 1].window_label);
        }
        lemma_listing_is_unique(rest_a, rest_b);
        assert(a =~= seq![a[0]] + rest_a);
        assert(b =~= seq![b[0]] + rest_b);
    }
}

/// In a sorted list a main window, if there is one, stands first.
pub proof fn lemma_main_window_first(windows: Seq<WindowStateView>)
    requires
        windows_sorted(windows),
        exists|i: int| 0 <= i < windows.len() && windows[i].is_main_window,
    ensures
        windows[0].is_main_window,
{
    let i = choose|i: int| 0 <= i < windows.len() && windows[i].is_main_window;
    if i > 0 {
        assert(!window_before(windows[i], windows[0]));
    }
}

/// Something that is listed by a rank: a flag that puts it before those
/// without the flag, and a name by which those of one kind are ordered.
pub trait Ranked: DeepView + Sized {
    /// The rank of a value, read from its model.
    spec fn rank(v: Self::V) -> (bool, Seq<char>);

    /// The flag of the rank.
    fn rank_flag(&self) -> (r: bool)
        ensures
            r == Self::rank(self.deep_view()).0,
    ;

    /// The name of the rank.
    fn rank_name(&self) -> (r: &str)
        ensures
            r@ == Self::rank(self.deep_view()).1,
    ;
}

/// Rank `a` comes strictly before rank `b`.
pub open spec fn rank_before(a: (bool, Seq<char>), b: (bool, Seq<char>)) -> bool {
    if a.0 != b.0 {
        a.0
    } else {
        lex_before(a.1, b.1)
    }
}

/// No element of the list ranks before one that precedes it.
pub open spec fn sorted_by_rank<T: Ranked>(items: Seq<T::V>) -> bool {
    forall|i: int, j: int|
        0 <= i < j < items.len() ==> !rank_before(T::rank(items[j]), T::rank(items[i]))
}

impl Ranked for WindowState {
    open spec fn rank(v: WindowStateView) -> (bool, Seq<char>) {
        (v.is_main_window, v.window_label)
    }

    fn rank_flag(&self) -> (r: bool) {
        self.is_main_window
    }

    fn rank_name(&self) -> (r: &str) {
        self.window_label.as_str()
    }
}

/// Whether `a` ranks strictly before `b`.
pub fn ranks_before<T: Ranked>(a: &T, b: &T) -> (r: bool)
    ensures
        r == rank_before(T::rank(a.deep_view()), T::rank(b.deep_view())),
{
    let flag_a = a.rank_flag();
    let flag_b = b.rank_flag();
    if flag_a != flag_b {
        flag_a
    } else {
        text_before(a.rank_name(), b.rank_name())
    }
}

/// Sorts by rank. Elements that are tied keep the order in which they came.
pub fn sort_by_rank<T: Ranked>(items: Vec<T>) -> (sorted: Vec<T>)
    ensures
        sorted_by_rank::<T>(sorted.deep_view()),
        sorted.deep_view().to_multiset() == items.deep_view().to_multiset(),
        sorted.len() == items.len(),
{
    let ghost all = items.deep_view();
    let mut rest = items;
    let mut sorted: Vec<T> = Vec::new();
    assert(sorted.deep_view() =~= Seq::empty());
    assert(sorted.deep_view().to_multiset().add(rest.deep_view().to_multiset())
        =~= all.to_multiset()) by {
        broadcast use vstd::seq_lib::to_multiset_len;

        assert(sorted.deep_view().to_multiset().len() == 0);
    }
    while rest.len() > 0
        invariant
            sorted_by_rank::<T>(sorted.deep_view()),
            sorted.deep_view().to_multiset().add(rest.deep_view().to_multiset())
                == all.to_multiset(),
            sorted.len() + rest.len() == all.len(),
        decreases rest.len(),
    {
        let ghost rest_before = rest.deep_view();
        let ghost sorted_before = sorted.deep_view();
        let item = rest.remove(0);
        assert(rest.deep_view() =~= rest_before.remove(0));
        assert(item.deep_view() == rest_before[0]);
        let mut at: usize = 0;
        while at < sorted.len() && !ranks_before(&item, &sorted[at])
            invariant
                at <= sorted.len(),
                sorted.deep_view() == sorted_before,
                forall|i: int|
                    0 <= i < at ==> !rank_before(
                        T::rank(item.deep_view()),
                        T::rank(sorted_before[i]),
                    ),
            decreases sorted.len() - at,
        {
            at += 1;
        }
        sorted.insert(at, item);
        proof {
            let now = sorted.deep_view();
            let v = item.deep_view();
            assert(now =~= sorted_before.insert(at as int, v));
            to_multiset_insert(sorted_before, at as int, v);
            to_multiset_remove(rest_before, 0);
            assert(rest_before.to_multiset().count(v) > 0) by {
                vstd::seq_lib::to_multiset_contains(rest_before, v);
                assert(rest_before[0] == v);
            }
            broadcast use vstd::multiset::group_multiset_axioms;

            assert(now.to_multiset().add(rest.deep_view().to_multiset()) =~= all.to_multiset());
            assert forall|i: int, j: int| 0 <= i < j < now.len() implies !rank_before(
                T::rank(now[j]),
                T::rank(now[i]),
            ) by {
                if j == at {
                    // `i` lies before the insertion point.
                } else if i == at {
                    // `now[j]` stood at or after the insertion point.
                    let p = T::rank(sorted_before[at as int]);
                    let q = T::rank(sorted_before[j - 1]);
                    let w = T::rank(v);
                    assert(rank_before(w, p));
                    if rank_before(q, w) {
                        lemma_rank_before_transitive(q, w, p);
                        if j - 1 == at {
                            lemma_lex_irreflexive(p.1);
                        }
                    }
                } else {
                    let i0 = if i < at {
                        i
                    } else {
                        i - 1
                    };
                    let j0 = if j < at {
                        j
                    } else {
                        j - 1
                    };
                    assert(!rank_before(T::rank(sorted_before[j0]), T::rank(sorted_before[i0])));
                }
            }
        }
    }
    assert(rest.deep_view() =~= Seq::empty());
    assert(sorted.deep_view().to_multiset() =~= all.to_multiset()) by {
        broadcast use vstd::seq_lib::to_multiset_len;

        assert(rest.deep_view().to_multiset().len() == 0);
    }
    sorted
}

/// Ranks are ordered transitively.
pub proof fn lemma_rank_before_transitive(
    a: (bool, Seq<char>),
    b: (bool, Seq<char>),
    c: (bool, Seq<char>),
)
    requires
        rank_before(a, b),
        rank_before(b, c),
    ensures
        rank_before(a, c),
{
    if a.0 == b.0 && b.0 == c.0 {
        lemma_lex_transitive(a.1, b.1, c.1);
    }
}

/// Whether `a` is listed strictly before `b`.
pub fn listed_before(a: &WindowState, b: &WindowState) -> (r: bool)
    ensures
        r == window_before(a@, b@),
{
    ranks_before(a, b)
}

/// Sorts windows into listing order. Windows that are tied keep the order
/// in which they came.
pub fn sort_windows(windows: Vec<WindowState>) -> (sorted: Vec<WindowState>)
    ensures
        windows_sorted(sorted.deep_view()),
        sorted.deep_view().to_multiset() == windows.deep_view().to_multiset(),
        sorted.len() == windows.len(),
{
    let sorted = sort_by_rank(windows);
    proof {
        let s = sorted.deep_view();
        assert forall|i: int, j: int| 0 <= i < j < s.len() implies !window_before(s[j], s[i]) by {
            assert(!rank_before(WindowState::rank(s[j]), WindowState::rank(s[i])));
        }
    }
    sorted
}

} // verus!
