//! What to do with files that the system asks the editor to open: which
//! folder becomes their workspace, whether they are passed on or queued,
//! and how a batch of them is grouped. Also where a new window is placed,
//! what it is called, and the URL that it loads.

use vstd::prelude::*;
use vstd::string::{StringExecFns, StringSliceAdditionalSpecFns};

use crate::capture::{is_document_label, DOCUMENT_WINDOW_PREFIX};
use crate::paths::{parent_of, path_parent};
use crate::text::{decimal, decimal_string};

verus! {

/// The workspace root for a file whose parent folder is `parent`, where
/// `has_grandparent` says whether that folder has a parent of its own.
///
/// A file directly under a root has none: the whole file system is not a
/// workspace. Neither has a file whose parent is empty.
pub open spec fn workspace_root_choice(parent: Option<Seq<char>>, has_grandparent: bool) -> Option<
    Seq<char>,
> {
    match parent {
        Some(p) => if p.len() > 0 && has_grandparent {
            Some(p)
        } else {
            None
        },
        None => None,
    }
}

/// Chooses the workspace root from a file's parent folder.
pub fn choose_workspace_root(parent: Option<String>, has_grandparent: bool) -> (root: Option<
    String,
>)
    ensures
        root.deep_view() == workspace_root_choice(parent.deep_view(), has_grandparent),
{
    match parent {
        Some(p) => {
            if !p.as_str().is_empty() && has_grandparent {
                Some(p)
            } else {
                None
            }
        },
        None => None,
    }
}

/// The workspace root for a file: its parent folder, unless the file lies
/// directly under a root or the path has no folder part.
///
/// [`workspace_root_of`] says which folder that is, over the name that
/// the parent of a path goes by. A root that is returned is never empty,
/// and it is the file's path with something taken off its end, as every
/// parent is.
pub fn get_workspace_root_for_file(file_path: &str) -> (root: Option<String>)
    ensures
        root.deep_view() == workspace_root_of(file_path@),
        root matches Some(folder) ==> {
            &&& folder@.len() > 0
            &&& folder@.is_prefix_of(file_path@)
            &&& folder@.len() < file_path@.len()
        },
{
    let parent = path_parent(file_path);
    let has_grandparent = match &parent {
        Some(p) => path_parent(p.as_str()).is_some(),
        None => false,
    };
    choose_workspace_root(parent, has_grandparent)
}

/// The workspace root for the file at a path: the parent of the path,
/// where that parent is not empty and has a parent of its own.
pub open spec fn workspace_root_of(path: Seq<char>) -> Option<Seq<char>> {
    match parent_of(path) {
        Some(folder) => workspace_root_choice(Some(folder), parent_of(folder) is Some),
        None => None,
    }
}

/// What to do when the system asks for files to be opened.
#[derive(Debug, Clone, Copy, PartialEq, Eq, Structural)]
pub enum FileOpenAction {
    /// The frontend is ready and the main window exists: hand the files
    /// to it directly.
    EmitToMainWindow,
    /// The frontend is ready but there is no main window: queue the files
    /// and create one.
    QueueAndCreateWindow,
    /// The frontend is not ready yet: queue the files.
    QueueOnly,
}

/// Decides how files are opened, from the state of the application.
pub fn determine_file_open_action(frontend_ready: bool, has_main_window: bool) -> (action:
    FileOpenAction)
    ensures
        action == if !frontend_ready {
            FileOpenAction::QueueOnly
        } else if has_main_window {
            FileOpenAction::EmitToMainWindow
        } else {
            FileOpenAction::QueueAndCreateWindow
        },
{
    match (frontend_ready, has_main_window) {
        (true, true) => FileOpenAction::EmitToMainWindow,
        (true, false) => FileOpenAction::QueueAndCreateWindow,
        (false, _) => FileOpenAction::QueueOnly,
    }
}

/// A file that waits to be opened once the frontend is ready.
#[derive(Debug)]
pub struct PendingFileOpen {
    pub path: String,
    pub workspace_root: Option<String>,
}

/// Mathematical model of [`PendingFileOpen`].
pub struct PendingFileOpenView {
    pub path: Seq<char>,
    pub workspace_root: Option<Seq<char>>,
}

impl View for PendingFileOpen {
    type V = PendingFileOpenView;

    open spec fn view(&self) -> PendingFileOpenView {
        PendingFileOpenView { path: self.path@, workspace_root: self.workspace_root.deep_view() }
    }
}

impl DeepView for PendingFileOpen {
    type V = PendingFileOpenView;

    open spec fn deep_view(&self) -> PendingFileOpenView {
        self@
    }
}

impl Clone for PendingFileOpen {
    fn clone(&self) -> (r: Self)
        ensures
            r@ == self@,
    {
        PendingFileOpen { path: self.path.clone(), workspace_root: self.workspace_root.clone() }
    }
}

/// The queue entry for a path under a workspace root.
pub open spec fn queued(path: Seq<char>, workspace_root: Option<Seq<char>>) -> PendingFileOpenView {
    PendingFileOpenView { path, workspace_root }
}

/// Appends the files to the queue, all with the same workspace root.
/// What was queued before stays, in its order.
pub fn queue_pending_file_opens(
    pending: &mut Vec<PendingFileOpen>,
    file_paths: Vec<String>,
    workspace_root: Option<&str>,
)
    ensures
        final(pending).deep_view() == old(pending).deep_view() + file_paths.deep_view().map_values(
            |path: Seq<char>| queued(path, workspace_root.deep_view()),
        ),
{
    let ghost before = pending.deep_view();
    let ghost paths = file_paths.deep_view();
    let ghost all = file_paths@;
    let ghost root = workspace_root.deep_view();
    let ghost entry = |path: Seq<char>| queued(path, root);
    assert(pending.deep_view() =~= before + paths.take(0).map_values(entry));
    for path in it: file_paths
        invariant
            it.seq() == all,
            all.len() == paths.len(),
            forall|j: int| 0 <= j < all.len() ==> (#[trigger] all[j])@ == paths[j],
            root == workspace_root.deep_view(),
            entry == |path: Seq<char>| queued(path, root),
            pending.deep_view() == before + paths.take(it.index() as int).map_values(entry),
    {
        let ghost queued = pending.deep_view();
        let ghost i = it.index() as int;
        let workspace_root_owned = match workspace_root {
            Some(r) => Some(r.to_owned()),
            None => None,
        };
        pending.push(PendingFileOpen { path, workspace_root: workspace_root_owned });
        proof {
            assert(paths.take(i + 1) =~= paths.take(i).push(path@));
            assert(pending.deep_view() =~= queued.push(entry(path@)));
            assert(pending.deep_view() =~= before + paths.take(i + 1).map_values(entry));
        }
    }
    assert(paths.take(paths.len() as int) =~= paths);
}

/// The paths filed under `key`, in their order. Each entry of `keyed`
/// is a key and the path filed under it.
pub open spec fn group_of(keyed: Seq<(Seq<char>, Seq<char>)>, key: Seq<char>) -> Seq<Seq<char>>
    decreases keyed.len(),
{
    if keyed.len() == 0 {
        Seq::empty()
    } else {
        let rest = group_of(keyed.drop_last(), key);
        if keyed.last().0 == key {
            rest.push(keyed.last().1)
        } else {
            rest
        }
    }
}

/// Whether some path is filed under `key`.
pub open spec fn has_key(keyed: Seq<(Seq<char>, Seq<char>)>, key: Seq<char>) -> bool {
    exists|i: int| 0 <= i < keyed.len() && (#[trigger] keyed[i]).0 == key
}

/// The groups into which keyed paths fall: one group for each key that
/// occurs, holding the paths filed under it.
pub open spec fn grouped(keyed: Seq<(Seq<char>, Seq<char>)>) -> Map<Seq<char>, Seq<Seq<char>>> {
    Map::new(|key: Seq<char>| has_key(keyed, key), |key: Seq<char>| group_of(keyed, key))
}

/// Paths paired with their keys: the `i`th path is filed under the `i`th key.
pub open spec fn keyed_paths(keys: Seq<Seq<char>>, paths: Seq<Seq<char>>) -> Seq<
    (Seq<char>, Seq<char>),
> {
    Seq::new(paths.len(), |i: int| (keys[i], paths[i]))
}

/// File paths grouped by workspace root. Files without a workspace root
/// are found under the empty key.
#[derive(Debug)]
pub struct PathGroups {
    groups: Vec<(String, Vec<String>)>,
}

impl View for PathGroups {
    type V = Map<Seq<char>, Seq<Seq<char>>>;

    closed spec fn view(&self) -> Map<Seq<char>, Seq<Seq<char>>> {
        Map::new(
            |key: Seq<char>| self.position(key) is Some,
            |key: Seq<char>| self.groups.deep_view()[self.position(key).unwrap()].1,
        )
    }
}

impl PathGroups {
    /// No key heads two groups.
    #[verifier::type_invariant]
    spec fn distinct_keys(self) -> bool {
        forall|i: int, j: int|
            0 <= i < j < self.groups.len() ==> (#[trigger] self.groups.deep_view()[i]).0 != (
            #[trigger] self.groups.deep_view()[j]).0
    }

    /// Where the group of `key` stands, if there is one.
    spec fn position(self, key: Seq<char>) -> Option<int> {
        if exists|i: int| 0 <= i < self.groups.len() && (#[trigger] self.groups.deep_view()[i]).0 == key {
            Some(
                choose|i: int|
                    0 <= i < self.groups.len() && (#[trigger] self.groups.deep_view()[i]).0 == key,
            )
        } else {
            None
        }
    }

    /// The number of groups.
    pub fn len(&self) -> (n: usize)
        ensures
            n == self@.dom().len(),
            self@.dom().finite(),
    {
        proof {
            use_type_invariant(self);
            self.lemma_domain();
        }
        self.groups.len()
    }

    /// Whether there is no group at all.
    pub fn is_empty(&self) -> (r: bool)
        ensures
            r == (self@.dom() == Set::<Seq<char>>::empty()),
    {
        proof {
            if self.groups.len() > 0 {
                let key = self.groups.deep_view()[0].0;
                assert(self.position(key) is Some);
                assert(self@.dom().contains(key));
            } else {
                assert(self@.dom() =~= Set::<Seq<char>>::empty());
            }
        }
        self.groups.len() == 0
    }

    /// Whether some path was filed under `key`.
    pub fn contains_key(&self, key: &str) -> (r: bool)
        ensures
            r == self@.contains_key(key@),
    {
        self.get(key).is_some()
    }

    /// The paths filed under `key`, in their order.
    pub fn get(&self, key: &str) -> (r: Option<&Vec<String>>)
        ensures
            match r {
                Some(paths) => self@.contains_key(key@) && paths.deep_view() == self@[key@],
                None => !self@.contains_key(key@),
            },
    {
        proof {
            use_type_invariant(self);
        }
        let wanted = key.to_owned();
        let mut i: usize = 0;
        while i < self.groups.len()
            invariant
                i <= self.groups.len(),
                wanted@ == key@,
                self.distinct_keys(),
                forall|j: int| 0 <= j < i ==> (#[trigger] self.groups.deep_view()[j]).0 != key@,
            decreases self.groups.len() - i,
        {
            if self.groups[i].0 == wanted {
                proof {
                    assert(self.groups.deep_view()[i as int].0 == key@);
                    let at = self.position(key@).unwrap();
                    let found = self.groups.deep_view();
                    assert(found[at].0 == key@);
                    if at < i {
                        assert(found[at].0 != found[i as int].0);
                    } else if i < at {
                        assert(found[i as int].0 != found[at].0);
                    }
                }
                return Some(&self.groups[i].1);
            }
            i += 1;
        }
        None
    }

    /// The keys, in the order in which each first occurred.
    pub fn keys(&self) -> (r: Vec<String>)
        ensures
            r.deep_view().to_set() == self@.dom(),
            r.deep_view().no_duplicates(),
    {
        proof {
            use_type_invariant(self);
        }
        let mut keys: Vec<String> = Vec::new();
        let mut i: usize = 0;
        while i < self.groups.len()
            invariant
                i <= self.groups.len(),
                keys.len() == i,
                forall|j: int| 0 <= j < i ==> keys.deep_view()[j] == (
                #[trigger] self.groups.deep_view()[j]).0,
            decreases self.groups.len() - i,
        {
            keys.push(self.groups[i].0.clone());
            i += 1;
        }
        proof {
            let ks = keys.deep_view();
            assert forall|key: Seq<char>| ks.to_set().contains(key) == self@.dom().contains(
                key,
            ) by {
                if ks.contains(key) {
                    let j = choose|j: int| 0 <= j < ks.len() && ks[j] == key;
                    assert(self.groups.deep_view()[j].0 == key);
                }
                if self.position(key) is Some {
                    let j = self.position(key).unwrap();
                    assert(ks[j] == key);
                }
            }
            assert(ks.to_set() =~= self@.dom());
            assert forall|a: int, b: int| 0 <= a < ks.len() && 0 <= b < ks.len() && a != b implies ks[a]
                != ks[b] by {
                if a < b {
                    assert(self.groups.deep_view()[a].0 != self.groups.deep_view()[b].0);
                } else {
                    assert(self.groups.deep_view()[b].0 != self.groups.deep_view()[a].0);
                }
            }
        }
        keys
    }

    /// The keys of the groups are the domain of the map, each once.
    proof fn lemma_domain(self)
        requires
            self.distinct_keys(),
        ensures
            self@.dom().finite(),
            self@.dom().len() == self.groups.len(),
    {
        let keys = self.groups.deep_view().map_values(|g: (Seq<char>, Seq<Seq<char>>)| g.0);
        assert forall|a: int, b: int| 0 <= a < keys.len() && 0 <= b < keys.len() && a != b implies keys[a]
            != keys[b] by {
            if a < b {
                assert(self.groups.deep_view()[a].0 != self.groups.deep_view()[b].0);
            } else {
                assert(self.groups.deep_view()[b].0 != self.groups.deep_view()[a].0);
            }
        }
        keys.unique_seq_to_set();
        vstd::seq_lib::seq_to_set_is_finite(keys);
        assert forall|key: Seq<char>| keys.to_set().contains(key) == self@.dom().contains(key) by {
            if keys.contains(key) {
                let j = choose|j: int| 0 <= j < keys.len() && keys[j] == key;
                assert(self.groups.deep_view()[j].0 == key);
            }
            if self.position(key) is Some {
                let j = self.position(key).unwrap();
                assert(keys[j] == key);
            }
        }
        assert(keys.to_set() =~= self@.dom());
    }
}


fn holds_key(keys: &Vec<String>, key: &String) -> (r: bool)
    ensures
        r == keys.deep_view().contains(key@),
{
    let mut i: usize = 0;
    while i < keys.len()
        invariant
            i <= keys.len(),
            forall|j: int| 0 <= j < i ==> keys.deep_view()[j] != key@,
        decreases keys.len() - i,
    {
        if keys[i] == *key {
            assert(keys.deep_view()[i as int] == key@);
            return true;
        }
        i += 1;
    }
    false
}

fn collect_group(keyed: &Vec<(String, String)>, key: &String) -> (group: Vec<String>)
    ensures
        group.deep_view() == group_of(keyed.deep_view(), key@),
{
    let ghost all = keyed.deep_view();
    let mut group: Vec<String> = Vec::new();
    let mut i: usize = 0;
    assert(all.take(0) =~= Seq::empty());
    assert(group.deep_view() =~= group_of(all.take(0), key@));
    while i < keyed.len()
        invariant
            i <= keyed.len(),
            all == keyed.deep_view(),
            group.deep_view() == group_of(all.take(i as int), key@),
        decreases keyed.len() - i,
    {
        let ghost before = group.deep_view();
        proof {
            assert(all.take(i + 1).drop_last() =~= all.take(i as int));
            assert(all.take(i + 1).last() == all[i as int]);
        }
        if keyed[i].0 == *key {
            group.push(keyed[i].1.clone());
            assert(group.deep_view() =~= before.push(all[i as int].1));
        }
        i += 1;
    }
    assert(all.take(i as int) =~= all);
    group
}

/// Groups keyed paths: each entry is a key and a path filed under it.
///
/// There is one group for each key that occurs. A group holds the paths
/// filed under its key, in the order in which they came.
pub fn group_keyed_paths(keyed: &Vec<(String, String)>) -> (groups: PathGroups)
    ensures
        groups@ == grouped(keyed.deep_view()),
{
    let ghost all = keyed.deep_view();
    let mut keys: Vec<String> = Vec::new();
    let mut i: usize = 0;
    while i < keyed.len()
        invariant
            i <= keyed.len(),
            all == keyed.deep_view(),
            keys.deep_view().no_duplicates(),
            forall|key: Seq<char>| #[trigger]
                keys.deep_view().contains(key) <==> has_key(all.take(i as int), key),
        decreases keyed.len() - i,
    {
        let ghost before = keys.deep_view();
        let ghost seen = all.take(i as int);
        let mut added = false;
        if !holds_key(&keys, &keyed[i].0) {
            keys.push(keyed[i].0.clone());
            added = true;
            assert(keys.deep_view() =~= before.push(all[i as int].0));
        }
        proof {
            let now = keys.deep_view();
            let next = all.take(i + 1);
            assert forall|key: Seq<char>| #[trigger] now.contains(key) <==> has_key(next, key) by {
                if now.contains(key) {
                    let j = choose|j: int| 0 <= j < now.len() && now[j] == key;
                    if j < before.len() {
                        assert(before[j] == key);
                        assert(before.contains(key));
                        let k = choose|k: int| 0 <= k < seen.len() && (#[trigger] seen[k]).0 == key;
                        assert(next[k].0 == key);
                    } else {
                        assert(next[i as int].0 == key);
                    }
                }
                if has_key(next, key) {
                    let k = choose|k: int| 0 <= k < next.len() && (#[trigger] next[k]).0 == key;
                    if k < i {
                        assert(seen[k].0 == key);
                        assert(has_key(seen, key));
                        assert(before.contains(key));
                        let j = choose|j: int| 0 <= j < before.len() && before[j] == key;
                        assert(now[j] == key);
                    } else if added {
                        assert(now[before.len() as int] == key);
                    } else {
                        assert(before.contains(key));
                        let j = choose|j: int| 0 <= j < before.len() && before[j] == key;
                        assert(now[j] == key);
                    }
                }
            }
        }
        i += 1;
    }
    assert(all.take(i as int) =~= all);
    let mut groups: Vec<(String, Vec<String>)> = Vec::new();
    let mut u: usize = 0;
    while u < keys.len()
        invariant
            u <= keys.len(),
            groups.len() == u,
            all == keyed.deep_view(),
            forall|j: int|
                0 <= j < u ==> (#[trigger] groups.deep_view()[j]) == (
                    keys.deep_view()[j],
                    group_of(all, keys.deep_view()[j]),
                ),
        decreases keys.len() - u,
    {
        let ghost before = groups.deep_view();
        let group = collect_group(keyed, &keys[u]);
        groups.push((keys[u].clone(), group));
        assert(groups.deep_view() =~= before.push(
            (keys.deep_view()[u as int], group_of(all, keys.deep_view()[u as int])),
        ));
        u += 1;
    }
    proof {
        let ks = keys.deep_view();
        let gs = groups.deep_view();
        assert forall|a: int, b: int| 0 <= a < b < gs.len() implies (#[trigger] gs[a]).0 != (
        #[trigger] gs[b]).0 by {
            assert(ks[a] != ks[b]);
        }
    }
    let result = PathGroups { groups };
    proof {
        let ks = keys.deep_view();
        let gs = result.groups.deep_view();
        assert forall|key: Seq<char>| result@.contains_key(key) == has_key(all, key) by {
            if result.position(key) is Some {
                let j = result.position(key).unwrap();
                assert(gs[j].0 == key);
                assert(ks[j] == key);
                assert(ks.contains(key));
            }
            if has_key(all, key) {
                assert(ks.contains(key));
                let j = choose|j: int| 0 <= j < ks.len() && ks[j] == key;
                assert(gs[j].0 == key);
            }
        }
        assert forall|key: Seq<char>| result@.contains_key(key) implies result@[key] == grouped(
            all,
        )[key] by {
            let j = result.position(key).unwrap();
            assert(gs[j].0 == key);
        }
        assert(result@ =~= grouped(all));
    }
    result
}

/// The key under which a path is filed: its workspace root, and the
/// empty key where it has none.
pub open spec fn workspace_key(path: Seq<char>) -> Seq<char> {
    match workspace_root_of(path) {
        Some(root) => root,
        None => Seq::empty(),
    }
}

/// Groups file paths by their workspace root.
///
/// Each path is filed under its workspace root, as
/// [`get_workspace_root_for_file`] finds it, and under the empty key where
/// it has none. There is one group for each key that occurs, and each
/// group keeps its paths in the order in which they came.
pub fn group_paths_by_workspace(paths: &[String]) -> (groups: PathGroups)
    ensures
        groups@ == grouped(
            keyed_paths(
                paths.deep_view().map_values(|path: Seq<char>| workspace_key(path)),
                paths.deep_view(),
            ),
        ),
{
    let ghost all = paths.deep_view();
    let mut keyed: Vec<(String, String)> = Vec::new();
    let mut i: usize = 0;
    while i < paths.len()
        invariant
            i <= paths.len(),
            all == paths.deep_view(),
            keyed.len() == i,
            forall|j: int|
                0 <= j < i ==> (#[trigger] keyed.deep_view()[j]) == (workspace_key(all[j]), all[j]),
        decreases paths.len() - i,
    {
        let key = match get_workspace_root_for_file(paths[i].as_str()) {
            Some(root) => root,
            None => String::new(),
        };
        let ghost before = keyed.deep_view();
        let path = paths[i].clone();
        assert(path@ == all[i as int]);
        keyed.push((key, path));
        assert(keyed.deep_view() =~= before.push((workspace_key(all[i as int]), all[i as int])));
        i += 1;
    }
    let groups = group_keyed_paths(&keyed);
    proof {
        let keys = all.map_values(|path: Seq<char>| workspace_key(path));
        assert(keyed.deep_view() =~= keyed_paths(keys, all));
    }
    groups
}

/// Windows cascade over this many positions before they start over.
pub const MAX_CASCADE: u32 = 10;

/// Distance between two cascaded windows, in logical pixels.
pub const CASCADE_OFFSET: u32 = 25;

/// Position of the first window, on both axes.
pub const CASCADE_BASE: u32 = 100;

/// Where the window with this number is placed: each window a step down
/// and to the right of the one before, starting over after
/// [`MAX_CASCADE`] steps so that windows do not leave the screen.
pub fn get_cascaded_position(count: u32) -> (position: (u32, u32))
    ensures
        position.0 == CASCADE_BASE + (count % MAX_CASCADE) * CASCADE_OFFSET,
        position.1 == position.0,
        CASCADE_BASE <= position.0 <= CASCADE_BASE + (MAX_CASCADE - 1) * CASCADE_OFFSET,
{
    let step: u32 = count % MAX_CASCADE;
    let at: u32 = CASCADE_BASE + step * CASCADE_OFFSET;
    (at, at)
}

/// The label of the document window with this number.
pub open spec fn document_label(count: u32) -> Seq<char> {
    DOCUMENT_WINDOW_PREFIX@ + decimal(count as nat)
}

/// Makes the label of the document window with this number. A capture
/// takes every window with such a label for a document window.
pub fn document_window_label(count: u32) -> (label: String)
    ensures
        label@ == document_label(count),
        is_document_label(label@),
{
    let mut label = DOCUMENT_WINDOW_PREFIX.to_owned();
    let digits = decimal_string(count as u64);
    label.append(digits.as_str());
    assert(label@.subrange(0, DOCUMENT_WINDOW_PREFIX@.len() as int)
        =~= DOCUMENT_WINDOW_PREFIX@);
    label
}

/// Whether a byte stands for itself in a URL: a letter, a digit, or one of
/// `-`, `.`, `_` and `~`.
pub open spec fn is_unreserved(b: u8) -> bool {
    ||| 0x30 <= b <= 0x39
    ||| 0x41 <= b <= 0x5A
    ||| 0x61 <= b <= 0x7A
    ||| b == 0x2D
    ||| b == 0x2E
    ||| b == 0x5F
    ||| b == 0x7E
}

/// The upper-case hexadecimal digit for a value below 16.
pub open spec fn hex_digit(d: int) -> char {
    if d < 10 {
        (0x30 + d) as char
    } else {
        (0x41 + d - 10) as char
    }
}

/// A byte as it is written in a URL: itself where it is unreserved, else a
/// percent sign and its two hexadecimal digits.
pub open spec fn percent_encoded_byte(b: u8) -> Seq<char> {
    if is_unreserved(b) {
        seq![b as char]
    } else {
        seq!['%', hex_digit(b as int / 16), hex_digit(b as int % 16)]
    }
}

/// Bytes as they are written in a URL, one after another.
pub open spec fn percent_encoded(bytes: Seq<u8>) -> Seq<char>
    decreases bytes.len(),
{
    if bytes.len() == 0 {
        Seq::empty()
    } else {
        percent_encoded(bytes.drop_last()) + percent_encoded_byte(bytes.last())
    }
}

/// Percent-encodes a text for a URL, by `urlencoding::encode`.
///
/// Trusted: the body is not verified. The contract states what the crate
/// documents and its source does: every byte of the text's UTF-8 form is
/// encoded but letters, digits and `-`, `.`, `_`, `~`.
#[verifier::external_body]
fn url_encode(text: &str) -> (r: String)
    ensures
        r@ == percent_encoded(text.spec_bytes()),
{
    urlencoding::encode(text).into_owned()
}

/// The JSON text of a list of strings, as `serde_json::to_string` writes it.
pub uninterp spec fn json_string_list(items: Seq<Seq<char>>) -> Seq<char>;

/// Writes a list of strings as JSON, by `serde_json::to_string`.
///
/// Trusted: the body is not verified. The contract gives the result its
/// name and claims no more of it. The call cannot fail on strings; were it
/// to fail, the text would be empty.
#[verifier::external_body]
fn json_of_strings(items: &[String]) -> (r: String)
    ensures
        r@ == json_string_list(items.deep_view()),
{
    match serde_json::to_string(items) {
        Ok(text) => text,
        Err(_) => String::new(),
    }
}

/// A query parameter: its name, an equals sign, and its value as it is
/// written in a URL.
pub open spec fn query_parameter(name: Seq<char>, value: Seq<u8>) -> Seq<char> {
    name + seq!['='] + percent_encoded(value)
}

/// The URL from its parameters: `/` alone without any, else `/?` and the
/// parameters with `&` between them.
pub open spec fn url_of(first: Option<Seq<char>>, second: Option<Seq<char>>) -> Seq<char> {
    match (first, second) {
        (None, None) => seq!['/'],
        (Some(a), None) => seq!['/', '?'] + a,
        (None, Some(b)) => seq!['/', '?'] + b,
        (Some(a), Some(b)) => seq!['/', '?'] + a + seq!['&'] + b,
    }
}

/// Puts a URL together from up to two parameters.
fn join_url(first: Option<String>, second: Option<String>) -> (url: String)
    ensures
        url@ == url_of(first.deep_view(), second.deep_view()),
{
    proof {
        reveal_strlit("/");
        reveal_strlit("/?");
        reveal_strlit("&");
    }
    match (first, second) {
        (None, None) => {
            let url = "/".to_owned();
            assert(url@ =~= seq!['/']);
            url
        },
        (Some(a), None) => {
            let mut url = "/?".to_owned();
            url.append(a.as_str());
            assert(url@ =~= seq!['/', '?'] + a@);
            url
        },
        (None, Some(b)) => {
            let mut url = "/?".to_owned();
            url.append(b.as_str());
            assert(url@ =~= seq!['/', '?'] + b@);
            url
        },
        (Some(a), Some(b)) => {
            let mut url = "/?".to_owned();
            url.append(a.as_str());
            url.append("&");
            url.append(b.as_str());
            assert(url@ =~= seq!['/', '?'] + a@ + seq!['&'] + b@);
            url
        },
    }
}

/// Makes a query parameter.
fn parameter(name: &str, value: &str) -> (r: String)
    ensures
        r@ == query_parameter(
            name@,
            value.spec_bytes(),
        ),
{
    proof {
        reveal_strlit("=");
    }
    let mut r = name.to_owned();
    r.append("=");
    r.append(url_encode(value).as_str());
    assert(r@ =~= name@ + seq!['='] + percent_encoded(
        value.spec_bytes(),
    ));
    r
}

/// The UTF-8 bytes of an optional text.
pub open spec fn bytes_of(text: Option<&str>) -> Option<Seq<u8>> {
    match text {
        Some(t) => Some(t.spec_bytes()),
        None => None,
    }
}

/// An optional query parameter.
pub open spec fn optional_parameter(name: Seq<char>, value: Option<Seq<u8>>) -> Option<Seq<char>> {
    match value {
        Some(v) => Some(query_parameter(name, v)),
        None => None,
    }
}

/// The URL of a window that opens a file in a workspace: the file first,
/// then the workspace root, each only where it is given.
pub fn build_window_url(file_path: Option<&str>, workspace_root: Option<&str>) -> (url: String)
    ensures
        url@ == url_of(
            optional_parameter("file"@, bytes_of(file_path)),
            optional_parameter("workspaceRoot"@, bytes_of(workspace_root)),
        ),
{
    let file = match file_path {
        Some(path) => Some(parameter("file", path)),
        None => None,
    };
    let root = match workspace_root {
        Some(root) => Some(parameter("workspaceRoot", root)),
        None => None,
    };
    join_url(file, root)
}

/// The URL of a window that opens a workspace with several files, where
/// `serialized_files` is the list of files as JSON text, or `None` where
/// there are no files: the workspace root first, then the files.
pub fn window_url_with_files(serialized_files: Option<&str>, workspace_root: Option<&str>) -> (url:
    String)
    ensures
        url@ == url_of(
            optional_parameter("workspaceRoot"@, bytes_of(workspace_root)),
            optional_parameter("files"@, bytes_of(serialized_files)),
        ),
{
    let root = match workspace_root {
        Some(root) => Some(parameter("workspaceRoot", root)),
        None => None,
    };
    let files = match serialized_files {
        Some(text) => Some(parameter("files", text)),
        None => None,
    };
    join_url(root, files)
}

/// The list of files as it goes into the URL: its JSON text, and nothing
/// where the list is empty.
pub open spec fn serialized_files(file_paths: Seq<Seq<char>>) -> Option<Seq<u8>> {
    if file_paths.len() == 0 {
        None
    } else {
        Some(vstd::utf8::encode_utf8(json_string_list(file_paths)))
    }
}

/// The URL of a window that opens a workspace with several files.
pub fn build_window_url_with_files(file_paths: &[String], workspace_root: Option<&str>) -> (url:
    String)
    ensures
        url@ == url_of(
            optional_parameter("workspaceRoot"@, bytes_of(workspace_root)),
            optional_parameter("files"@, serialized_files(file_paths.deep_view())),
        ),
{
    if file_paths.len() == 0 {
        window_url_with_files(None, workspace_root)
    } else {
        let serialized = json_of_strings(file_paths);
        window_url_with_files(Some(serialized.as_str()), workspace_root)
    }
}

} // verus!
