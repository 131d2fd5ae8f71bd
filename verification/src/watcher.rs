//! Which file system events are passed on to the frontend.

use vstd::prelude::*;

use crate::text::{has_prefix, same_text};

verus! {

/// Events for one path that follow each other faster than this, in
/// milliseconds, are passed on once.
pub const DEBOUNCE_INTERVAL_MS: u64 = 200;

/// One component of a path.
#[derive(Debug)]
pub enum PathPart {
    /// A drive or share at the head of a path.
    Prefix,
    /// The root directory.
    RootDir,
    /// `.`
    CurDir,
    /// `..`
    ParentDir,
    /// The name of a file or a directory.
    Normal(String),
}

/// Mathematical model of [`PathPart`].
pub enum PathPartView {
    Prefix,
    RootDir,
    CurDir,
    ParentDir,
    Normal(Seq<char>),
}

impl View for PathPart {
    type V = PathPartView;

    open spec fn view(&self) -> PathPartView {
        match self {
            PathPart::Prefix => PathPartView::Prefix,
            PathPart::RootDir => PathPartView::RootDir,
            PathPart::CurDir => PathPartView::CurDir,
            PathPart::ParentDir => PathPartView::ParentDir,
            PathPart::Normal(name) => PathPartView::Normal(name@),
        }
    }
}

impl DeepView for PathPart {
    type V = PathPartView;

    open spec fn deep_view(&self) -> PathPartView {
        self@
    }
}

/// The iterator over the components of a path, `std::path::Components`.
#[verifier::external_type_specification]
#[verifier::external_body]
pub struct ExComponents<'a>(std::path::Components<'a>);

/// The components that an iterator has yet to yield, in their order.
pub uninterp spec fn parts_left(components: std::path::Components<'_>) -> Seq<PathPartView>;

/// The components of a path, as `std::path::Path::components` yields them.
/// How a path falls into components follows the path syntax that the
/// library is built for.
pub uninterp spec fn components_of(path: Seq<char>) -> Seq<PathPartView>;

/// Starts to go through the components of a path, by
/// `std::path::Path::components`.
///
/// Trusted: the body is not verified. The contract gives what the
/// iterator will yield its name and claims no more of it.
#[verifier::external_body]
fn path_components(path: &str) -> (components: std::path::Components<'_>)
    ensures
        parts_left(components) == components_of(path@),
{
    std::path::Path::new(path).components()
}

/// Takes the next component from the iterator, by `Iterator::next`.
///
/// Trusted: the body is not verified. The contract says what `next` does
/// to any iterator: it yields the first of what is left and leaves the
/// rest, and yields `None` where nothing is left.
#[verifier::external_body]
fn next_part(components: &mut std::path::Components<'_>) -> (part: Option<PathPart>)
    ensures
        match part.deep_view() {
            Some(first) => {
                &&& parts_left(*old(components)).len() > 0
                &&& first == parts_left(*old(components))[0]
                &&& parts_left(*final(components)) == parts_left(*old(components)).drop_first()
            },
            None => {
                &&& parts_left(*old(components)).len() == 0
                &&& parts_left(*final(components)) == parts_left(*old(components))
            },
        },
{
    match components.next() {
        Some(std::path::Component::Prefix(_)) => Some(PathPart::Prefix),
        Some(std::path::Component::RootDir) => Some(PathPart::RootDir),
        Some(std::path::Component::CurDir) => Some(PathPart::CurDir),
        Some(std::path::Component::ParentDir) => Some(PathPart::ParentDir),
        Some(std::path::Component::Normal(name)) => Some(
            PathPart::Normal(name.to_string_lossy().into_owned()),
        ),
        None => None,
    }
}

/// A name that the watcher passes over: the folders in which tools keep
/// their own files, and everything hidden.
pub open spec fn is_ignored_name(name: Seq<char>) -> bool {
    ||| name == ".git"@
    ||| name == ".obsidian"@
    ||| name == ".svn"@
    ||| name == ".hg"@
    ||| name == "node_modules"@
    ||| name == ".DS_Store"@
    ||| name == ".Trash"@
    ||| name == "__pycache__"@
    ||| "."@.is_prefix_of(name)
}

/// Whether the watcher passes over a name.
pub fn ignored_name(name: &str) -> (r: bool)
    ensures
        r == is_ignored_name(name@),
{
    same_text(name, ".git") || same_text(name, ".obsidian") || same_text(name, ".svn") || same_text(
        name,
        ".hg",
    ) || same_text(name, "node_modules") || same_text(name, ".DS_Store") || same_text(
        name,
        ".Trash",
    ) || same_text(name, "__pycache__") || has_prefix(name, ".")
}

/// A component that makes the watcher pass over the whole path.
pub open spec fn is_ignored_part(part: PathPartView) -> bool {
    match part {
        PathPartView::Normal(name) => is_ignored_name(name),
        _ => false,
    }
}

/// Whether some component makes the watcher pass over a path.
pub fn should_ignore_parts(parts: &Vec<PathPart>) -> (r: bool)
    ensures
        r == exists|i: int| 0 <= i < parts.len() && is_ignored_part(#[trigger] parts.deep_view()[i]),
{
    let mut i: usize = 0;
    while i < parts.len()
        invariant
            i <= parts.len(),
            forall|j: int| 0 <= j < i ==> !is_ignored_part(#[trigger] parts.deep_view()[j]),
        decreases parts.len() - i,
    {
        let ignored = match &parts[i] {
            PathPart::Normal(name) => ignored_name(name.as_str()),
            _ => false,
        };
        if ignored {
            assert(is_ignored_part(parts.deep_view()[i as int]));
            return true;
        }
        i += 1;
    }
    false
}

/// Whether the watcher passes over a path: it does where one of the
/// components of the path is hidden or belongs to a tool.
pub fn should_ignore_path(path: &str) -> (r: bool)
    ensures
        r == has_ignored_part(components_of(path@)),
{
    let ghost all = components_of(path@);
    let mut components = path_components(path);
    let mut parts: Vec<PathPart> = Vec::new();
    assert(parts.deep_view() + parts_left(components) =~= all);
    loop
        invariant
            all == components_of(path@),
            parts.deep_view() + parts_left(components) == all,
        decreases parts_left(components).len(),
    {
        let ghost before = parts.deep_view();
        let ghost left = parts_left(components);
        match next_part(&mut components) {
            Some(part) => {
                parts.push(part);
                proof {
                    assert(parts.deep_view() =~= before.push(left[0]));
                    assert(parts.deep_view() + left.drop_first() =~= before + left);
                }
            },
            None => {
                assert(parts.deep_view() =~= all);
                return should_ignore_parts(&parts);
            },
        }
    }
}

/// Whether one of the parts makes the watcher pass over a path.
pub open spec fn has_ignored_part(parts: Seq<PathPartView>) -> bool {
    exists|i: int| 0 <= i < parts.len() && is_ignored_part(#[trigger] parts[i])
}

/// What happened to a path, as far as the watcher tells kinds apart.
#[derive(Debug, Clone, Copy, PartialEq, Eq, Structural)]
pub enum EventKind {
    /// Something happened; it is not known what.
    Any,
    /// A file was opened, read or closed.
    Access,
    /// A file or a folder was created.
    Create,
    /// A file or a folder was changed.
    Modify(ModifyKind),
    /// A file or a folder was removed.
    Remove,
    /// Something else.
    Other,
}

/// What was changed.
#[derive(Debug, Clone, Copy, PartialEq, Eq, Structural)]
pub enum ModifyKind {
    /// It is not known what.
    Any,
    /// The content.
    Data,
    /// The metadata.
    Metadata,
    /// The name.
    Name,
    /// Something else.
    Other,
}

/// The name under which a kind of event is passed on, or `None` for the
/// kinds that are not passed on.
pub open spec fn kind_name(kind: EventKind) -> Option<Seq<char>> {
    match kind {
        EventKind::Create => Some("create"@),
        EventKind::Remove => Some("remove"@),
        EventKind::Modify(ModifyKind::Name) => Some("rename"@),
        EventKind::Modify(_) => Some("modify"@),
        _ => None,
    }
}

/// Names a kind of event for the frontend. Events that only read, and
/// those of unknown kind, have no name and are not passed on.
pub fn event_kind_to_string(kind: &EventKind) -> (r: Option<&'static str>)
    ensures
        match r {
            Some(name) => kind_name(*kind) == Some(name@),
            None => kind_name(*kind) is None,
        },
{
    match kind {
        EventKind::Create => Some("create"),
        EventKind::Remove => Some("remove"),
        EventKind::Modify(modify_kind) => match modify_kind {
            ModifyKind::Name => Some("rename"),
            _ => Some("modify"),
        },
        _ => None,
    }
}

/// Whether an event for a path is dropped because one was passed on for
/// the same path less than [`DEBOUNCE_INTERVAL_MS`] ago. Both times are in
/// milliseconds on one monotonic clock.
pub fn within_debounce(last_emitted_ms: Option<u64>, now_ms: u64) -> (r: bool)
    ensures
        r == match last_emitted_ms {
            Some(last) => now_ms - last < DEBOUNCE_INTERVAL_MS,
            None => false,
        },
{
    match last_emitted_ms {
        Some(last) => {
            if now_ms >= last {
                now_ms - last < DEBOUNCE_INTERVAL_MS
            } else {
                true
            }
        },
        None => false,
    }
}

/// A change in a watched directory, as the frontend is told of it.
#[derive(Debug)]
pub struct FsChangeEvent {
    /// The watcher that saw the change.
    pub watch_id: String,
    /// The directory that is watched.
    pub root_path: String,
    /// The paths that changed.
    pub paths: Vec<String>,
    /// What happened: `create`, `modify`, `remove` or `rename`.
    pub kind: String,
}

/// Makes the event for the paths that are left once ignored and debounced
/// paths are gone. With no path left there is no event.
pub fn change_event(watch_id: &str, root_path: &str, paths: Vec<String>, kind: &str) -> (r: Option<
    FsChangeEvent,
>)
    ensures
        paths.len() == 0 <==> r is None,
        r matches Some(event) ==> {
            &&& event.watch_id@ == watch_id@
            &&& event.root_path@ == root_path@
            &&& event.paths == paths
            &&& event.kind@ == kind@
        },
{
    if paths.len() == 0 {
        None
    } else {
        Some(
            FsChangeEvent {
                watch_id: watch_id.to_owned(),
                root_path: root_path.to_owned(),
                paths,
                kind: kind.to_owned(),
            },
        )
    }
}

} // verus!
