//! Genies: prompt files with a name, a scope and a template.

use vstd::prelude::*;
use vstd::string::StringExecFns;

use crate::frontmatter::{
    field, field_or, field_value, first_name, frontmatter_name, lower_keys, lowered,
    same_but_for_ascii_case, same_ignoring_ascii_case, split, split_frontmatter, Frontmatter,
    FrontmatterView,
};
use crate::listing::{keep_last_under_each_key, last_under_each_key};
use crate::paths::{
    below_of, extension_of, file_stem, file_stem_of, parent_of, path_below, path_extension,
    path_parent, with_extension, with_extension_of,
};
use crate::text::lex_before;
use crate::window_order::{rank_before, sort_by_rank, Ranked};

verus! {

/// What the front matter of a genie says of it.
#[derive(Debug)]
pub struct GenieMetadata {
    pub name: String,
    pub description: String,
    pub scope: String,
    pub category: Option<String>,
    pub model: Option<String>,
    /// How a suggestion is applied: `replace` or `insert`.
    pub action: Option<String>,
}

/// Mathematical model of [`GenieMetadata`].
pub struct GenieMetadataView {
    pub name: Seq<char>,
    pub description: Seq<char>,
    pub scope: Seq<char>,
    pub category: Option<Seq<char>>,
    pub model: Option<Seq<char>>,
    pub action: Option<Seq<char>>,
}

impl View for GenieMetadata {
    type V = GenieMetadataView;

    open spec fn view(&self) -> GenieMetadataView {
        GenieMetadataView {
            name: self.name@,
            description: self.description@,
            scope: self.scope@,
            category: self.category.deep_view(),
            model: self.model.deep_view(),
            action: self.action.deep_view(),
        }
    }
}

/// A genie: its metadata and its template.
#[derive(Debug)]
pub struct GenieContent {
    pub metadata: GenieMetadata,
    pub template: String,
}

/// Mathematical model of [`GenieContent`].
pub struct GenieContentView {
    pub metadata: GenieMetadataView,
    pub template: Seq<char>,
}

impl View for GenieContent {
    type V = GenieContentView;

    open spec fn view(&self) -> GenieContentView {
        GenieContentView { metadata: self.metadata@, template: self.template@ }
    }
}

/// The action that a genie names, where it is one of the two that exist.
pub open spec fn known_action(action: Option<Seq<char>>) -> Option<Seq<char>> {
    match action {
        Some(a) => if a == "replace"@ || a == "insert"@ {
            Some(a)
        } else {
            None
        },
        None => None,
    }
}

/// The metadata that fields with lower-case keys stand for.
///
/// A genie without a name is called by `default_name`, one without a scope
/// works on the selection, and an action that is unknown is dropped.
pub open spec fn genie_metadata(
    fields: Seq<(Seq<char>, Seq<char>)>,
    default_name: Seq<char>,
) -> GenieMetadataView {
    GenieMetadataView {
        name: field_or(fields, "name"@, default_name),
        description: field_or(fields, "description"@, Seq::empty()),
        scope: field_or(fields, "scope"@, "selection"@),
        category: field(fields, "category"@),
        model: field(fields, "model"@),
        action: known_action(field(fields, "action"@)),
    }
}

/// Reads a genie's metadata from fields whose keys are in lower case.
pub fn genie_metadata_from(fields: &Vec<(String, String)>, default_name: &str) -> (r:
    GenieMetadata)
    ensures
        r@ == genie_metadata(fields.deep_view(), default_name@),
{
    let name = match field_value(fields, "name") {
        Some(v) => v,
        None => default_name.to_owned(),
    };
    let description = match field_value(fields, "description") {
        Some(v) => v,
        None => String::new(),
    };
    let scope = match field_value(fields, "scope") {
        Some(v) => v,
        None => "selection".to_owned(),
    };
    let action = match field_value(fields, "action") {
        Some(a) => {
            if a == "replace".to_owned() || a == "insert".to_owned() {
                Some(a)
            } else {
                None
            }
        },
        None => None,
    };
    GenieMetadata {
        name,
        description,
        scope,
        category: field_value(fields, "category"),
        model: field_value(fields, "model"),
        action,
    }
}

/// What parsing makes of a genie file, where `stem` is the stem of the
/// file's name.
pub open spec fn parsed_genie(content: Seq<char>, path: Seq<char>, stem: Seq<char>) -> Result<
    GenieContentView,
    Seq<char>,
> {
    match split(content) {
        FrontmatterView::Absent { body } => Ok(
            GenieContentView { metadata: genie_metadata(Seq::empty(), stem), template: body },
        ),
        FrontmatterView::Unclosed => Err("No closing --- in frontmatter: "@ + path),
        FrontmatterView::Present { entries, template } => Ok(
            GenieContentView { metadata: genie_metadata(lowered(entries), stem), template },
        ),
    }
}

/// The model of what parsing returns.
pub open spec fn genie_result_view(r: Result<GenieContent, String>) -> Result<
    GenieContentView,
    Seq<char>,
> {
    match r {
        Ok(genie) => Ok(genie@),
        Err(message) => Err(message@),
    }
}

/// Builds a genie from a file that has been taken apart, the keys of its
/// entries in lower case.
pub fn genie_from_parts(parts: Frontmatter, path: &str, stem: &str) -> (r: Result<
    GenieContent,
    String,
>)
    ensures
        genie_result_view(r) == match parts@ {
            FrontmatterView::Absent { body } => Ok(
                GenieContentView { metadata: genie_metadata(Seq::empty(), stem@), template: body },
            ),
            FrontmatterView::Unclosed => Err("No closing --- in frontmatter: "@ + path@),
            FrontmatterView::Present { entries, template } => Ok(
                GenieContentView { metadata: genie_metadata(entries, stem@), template },
            ),
        },
{
    match parts {
        Frontmatter::Absent { body } => {
            let none: Vec<(String, String)> = Vec::new();
            assert(none.deep_view() =~= Seq::empty());
            Ok(GenieContent { metadata: genie_metadata_from(&none, stem), template: body })
        },
        Frontmatter::Unclosed => {
            let mut message = "No closing --- in frontmatter: ".to_owned();
            message.append(path);
            Err(message)
        },
        Frontmatter::Present { entries, template } => {
            Ok(GenieContent { metadata: genie_metadata_from(&entries, stem), template })
        },
    }
}

/// Parses a genie file. `path` is where the file lies.
///
/// A file without front matter is all template; it is named after the
/// stem of its file name, as is one whose front matter gives no name. A
/// fence that is opened and never closed is an error. Keys are matched in
/// lower case.
pub fn parse_genie(content: &str, path: &str) -> (r: Result<GenieContent, String>)
    ensures
        genie_result_view(r) == parsed_genie(content@, path@, file_stem_of(path@)),
        split(content@) is Unclosed <==> r is Err,
{
    let stem = file_stem(path);
    let parts = match split_frontmatter(content) {
        Frontmatter::Present { entries, template } => Frontmatter::Present {
            entries: lower_keys(entries),
            template,
        },
        Frontmatter::Absent { body } => Frontmatter::Absent { body },
        Frontmatter::Unclosed => Frontmatter::Unclosed,
    };
    let r = genie_from_parts(parts, path, stem.as_str());
    assert(genie_result_view(r) == parsed_genie(content@, path@, stem@));
    r
}

/// Whether a path names a markdown file: its extension is `md`, in any
/// mix of upper and lower case.
pub open spec fn is_markdown(path: Seq<char>) -> bool {
    match extension_of(path) {
        Some(extension) => same_ignoring_ascii_case(extension, "md"@),
        None => false,
    }
}

/// Whether a path names a markdown file.
pub fn is_markdown_path(path: &str) -> (r: bool)
    ensures
        r == is_markdown(path@),
{
    match path_extension(path) {
        Some(extension) => same_but_for_ascii_case(extension.as_str(), "md"),
        None => false,
    }
}

/// The category of a file: the folder it lies in, as seen from the base
/// directory. A file that lies in the base directory itself, or not below
/// it at all, has none.
pub open spec fn category_of(path: Seq<char>, base: Seq<char>) -> Option<Seq<char>> {
    match parent_of(path) {
        Some(folder) => match below_of(folder, base) {
            Some(category) => if category.len() > 0 {
                Some(category)
            } else {
                None
            },
            None => None,
        },
        None => None,
    }
}

/// Finds the category of a file.
pub fn category_for(path: &str, base: &str) -> (r: Option<String>)
    ensures
        r.deep_view() == category_of(path@, base@),
{
    match path_parent(path) {
        Some(folder) => match path_below(folder.as_str(), base) {
            Some(category) => {
                if category.as_str().is_empty() {
                    None
                } else {
                    Some(category)
                }
            },
            None => None,
        },
        None => None,
    }
}

/// A genie file as a scan of the genies directory found it.
#[derive(Debug)]
pub struct GenieFile {
    /// Where the file lies.
    pub path: String,
    /// What the file holds, or `None` where it could not be read.
    pub content: Option<String>,
}

/// A genie as a menu shows it.
#[derive(Debug)]
pub struct GenieMenuEntry {
    pub title: String,
    pub path: String,
    pub category: Option<String>,
}

/// Mathematical model of [`GenieMenuEntry`].
pub struct GenieMenuEntryView {
    pub title: Seq<char>,
    pub path: Seq<char>,
    pub category: Option<Seq<char>>,
}

impl View for GenieMenuEntry {
    type V = GenieMenuEntryView;

    open spec fn view(&self) -> GenieMenuEntryView {
        GenieMenuEntryView {
            title: self.title@,
            path: self.path@,
            category: self.category.deep_view(),
        }
    }
}

impl DeepView for GenieMenuEntry {
    type V = GenieMenuEntryView;

    open spec fn deep_view(&self) -> GenieMenuEntryView {
        self@
    }
}

impl Ranked for GenieMenuEntry {
    open spec fn rank(v: GenieMenuEntryView) -> (bool, Seq<char>) {
        (false, v.title)
    }

    fn rank_flag(&self) -> (r: bool) {
        false
    }

    fn rank_name(&self) -> (r: &str) {
        self.title.as_str()
    }
}

/// Mathematical model of [`GenieFile`].
pub struct GenieFileView {
    pub path: Seq<char>,
    pub content: Option<Seq<char>>,
}

impl View for GenieFile {
    type V = GenieFileView;

    open spec fn view(&self) -> GenieFileView {
        GenieFileView { path: self.path@, content: self.content.deep_view() }
    }
}

impl DeepView for GenieFile {
    type V = GenieFileView;

    open spec fn deep_view(&self) -> GenieFileView {
        self@
    }
}

/// The title of a file: the name in its front matter, or the stem of its
/// file name where it has none or could not be read.
pub open spec fn title_of(file: GenieFileView) -> Seq<char> {
    match file.content {
        Some(content) => match frontmatter_name(content) {
            Some(name) => name,
            None => file_stem_of(file.path),
        },
        None => file_stem_of(file.path),
    }
}

/// The menu entry for a file found below a base directory.
pub open spec fn menu_entry(file: GenieFileView, base: Seq<char>) -> GenieMenuEntryView {
    GenieMenuEntryView {
        title: title_of(file),
        path: file.path,
        category: category_of(file.path, base),
    }
}

/// The menu entries for the markdown files among the first `n` files.
pub open spec fn menu_entries(files: Seq<GenieFileView>, base: Seq<char>, n: int) -> Seq<
    GenieMenuEntryView,
>
    decreases n,
{
    if n <= 0 {
        Seq::empty()
    } else if is_markdown(files[n - 1].path) {
        menu_entries(files, base, n - 1).push(menu_entry(files[n - 1], base))
    } else {
        menu_entries(files, base, n - 1)
    }
}

/// The name that the front matter of a file gives, read without parsing
/// the rest: the value of the first line whose key is `name`, in any mix
/// of upper and lower case, and whose value is not empty.
pub fn extract_frontmatter_name(content: &str) -> (r: Option<String>)
    ensures
        r.deep_view() == frontmatter_name(content@),
{
    match split_frontmatter(content) {
        Frontmatter::Present { entries, template } => first_name(entries),
        Frontmatter::Absent { body } => None,
        Frontmatter::Unclosed => None,
    }
}

/// Turns the files found below a base directory into menu entries, sorted
/// by title. Files that are not markdown are passed over.
pub fn scan_genies_with_titles(base: &str, files: Vec<GenieFile>) -> (r: Vec<GenieMenuEntry>)
    ensures
        r.deep_view().to_multiset() == menu_entries(
            files.deep_view(),
            base@,
            files.len() as int,
        ).to_multiset(),
        forall|i: int, j: int|
            0 <= i < j < r.len() ==> !lex_before(
                r.deep_view()[j].title,
                r.deep_view()[i].title,
            ),
{
    let ghost views = files.deep_view();
    let ghost all = files@;
    let count: usize = files.len();
    let mut found: Vec<GenieMenuEntry> = Vec::new();
    assert(found.deep_view() =~= menu_entries(views, base@, 0));
    for file in it: files
        invariant
            it.seq() == all,
            all.len() == views.len(),
            all.len() == count,
            forall|j: int| 0 <= j < all.len() ==> (#[trigger] all[j])@ == views[j],
            found.deep_view() == menu_entries(views, base@, it.index() as int),
    {
        let ghost before = found.deep_view();
        assert(file@ == views[it.index() as int]);
        if is_markdown_path(file.path.as_str()) {
            let title = match &file.content {
                Some(content) => match extract_frontmatter_name(content.as_str()) {
                    Some(name) => name,
                    None => file_stem(file.path.as_str()),
                },
                None => file_stem(file.path.as_str()),
            };
            let category = category_for(file.path.as_str(), base);
            found.push(GenieMenuEntry { title, path: file.path, category });
            assert(found.deep_view() =~= before.push(menu_entry(file@, base@)));
        }
    }
    let sorted = sort_by_rank(found);
    proof {
        let s = sorted.deep_view();
        assert forall|i: int, j: int| 0 <= i < j < s.len() implies !lex_before(
            s[j].title,
            s[i].title,
        ) by {
            assert(!rank_before(GenieMenuEntry::rank(s[j]), GenieMenuEntry::rank(s[i])));
        }
    }
    sorted
}

/// A genie as the list of genies shows it.
#[derive(Debug)]
pub struct GenieEntry {
    pub name: String,
    pub path: String,
    /// Where the genie comes from: `global`.
    pub source: String,
    pub category: Option<String>,
}

/// Mathematical model of [`GenieEntry`].
pub struct GenieEntryView {
    pub name: Seq<char>,
    pub path: Seq<char>,
    pub source: Seq<char>,
    pub category: Option<Seq<char>>,
}

impl View for GenieEntry {
    type V = GenieEntryView;

    open spec fn view(&self) -> GenieEntryView {
        GenieEntryView {
            name: self.name@,
            path: self.path@,
            source: self.source@,
            category: self.category.deep_view(),
        }
    }
}

impl DeepView for GenieEntry {
    type V = GenieEntryView;

    open spec fn deep_view(&self) -> GenieEntryView {
        self@
    }
}

impl Ranked for GenieEntry {
    open spec fn rank(v: GenieEntryView) -> (bool, Seq<char>) {
        (false, v.name)
    }

    fn rank_flag(&self) -> (r: bool) {
        false
    }

    fn rank_name(&self) -> (r: &str) {
        self.name.as_str()
    }
}

/// The key of a genie: the path of its file as seen from the base
/// directory, without the extension, so that files of one name in
/// different folders have different keys. A file that does not lie below
/// the base is keyed by its whole path.
pub open spec fn genie_key_of(path: Seq<char>, base: Seq<char>) -> Seq<char> {
    with_extension_of(
        match below_of(path, base) {
            Some(below) => below,
            None => path,
        },
        Seq::empty(),
    )
}

/// Finds the key of a genie.
pub fn genie_key(path: &str, base: &str) -> (key: String)
    ensures
        key@ == genie_key_of(path@, base@),
{
    proof {
        reveal_strlit("");
        assert(""@ =~= Seq::<char>::empty());
    }
    match path_below(path, base) {
        Some(below) => with_extension(below.as_str(), ""),
        None => with_extension(path, ""),
    }
}

/// The list entry for a file found below a base directory: named by the
/// stem of its file name.
pub open spec fn genie_entry_of(path: Seq<char>, base: Seq<char>) -> GenieEntryView {
    GenieEntryView {
        name: file_stem_of(path),
        path,
        source: "global"@,
        category: category_of(path, base),
    }
}

/// The keyed list entries for the markdown files among the first `n` paths.
pub open spec fn keyed_genies(paths: Seq<Seq<char>>, base: Seq<char>, n: int) -> Seq<
    (Seq<char>, GenieEntryView),
>
    decreases n,
{
    if n <= 0 {
        Seq::empty()
    } else if is_markdown(paths[n - 1]) {
        keyed_genies(paths, base, n - 1).push(
            (genie_key_of(paths[n - 1], base), genie_entry_of(paths[n - 1], base)),
        )
    } else {
        keyed_genies(paths, base, n - 1)
    }
}

/// Makes the list of genies from keyed entries. Of two genies under one
/// key the later stays. The list is sorted by name.
pub fn list_keyed_genies(found: Vec<(String, GenieEntry)>) -> (r: Vec<GenieEntry>)
    ensures
        r.deep_view().to_multiset() == last_under_each_key(found.deep_view()).to_multiset(),
        forall|i: int, j: int|
            0 <= i < j < r.len() ==> !lex_before(r.deep_view()[j].name, r.deep_view()[i].name),
{
    let sorted = sort_by_rank(keep_last_under_each_key(found));
    proof {
        let s = sorted.deep_view();
        assert forall|i: int, j: int| 0 <= i < j < s.len() implies !lex_before(
            s[j].name,
            s[i].name,
        ) by {
            assert(!rank_before(GenieEntry::rank(s[j]), GenieEntry::rank(s[i])));
        }
    }
    sorted
}

/// Makes the list of genies from the paths of the files found below the
/// genies directory `base`. Files that are not markdown are passed over.
/// Each genie is keyed as [`genie_key_of`] says; of two under one key the
/// later stays. The list is sorted by name.
pub fn list_genies(base: &str, paths: Vec<String>) -> (r: Vec<GenieEntry>)
    ensures
        r.deep_view().to_multiset() == last_under_each_key(
            keyed_genies(paths.deep_view(), base@, paths.len() as int),
        ).to_multiset(),
        forall|i: int, j: int|
            0 <= i < j < r.len() ==> !lex_before(r.deep_view()[j].name, r.deep_view()[i].name),
{
    let ghost views = paths.deep_view();
    let ghost all = paths@;
    let count: usize = paths.len();
    let mut found: Vec<(String, GenieEntry)> = Vec::new();
    assert(found.deep_view() =~= keyed_genies(views, base@, 0));
    for path in it: paths
        invariant
            it.seq() == all,
            all.len() == views.len(),
            all.len() == count,
            forall|j: int| 0 <= j < all.len() ==> (#[trigger] all[j])@ == views[j],
            found.deep_view() == keyed_genies(views, base@, it.index() as int),
    {
        let ghost before = found.deep_view();
        assert(path@ == views[it.index() as int]);
        if is_markdown_path(path.as_str()) {
            let key = genie_key(path.as_str(), base);
            let entry = GenieEntry {
                name: file_stem(path.as_str()),
                category: category_for(path.as_str(), base),
                source: "global".to_owned(),
                path,
            };
            found.push((key, entry));
            assert(found.deep_view() =~= before.push(
                (genie_key_of(path@, base@), genie_entry_of(path@, base@)),
            ));
        }
    }
    list_keyed_genies(found)
}

} // verus!
