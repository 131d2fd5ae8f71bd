//! Prompts: like genies, with an icon in place of an action. A menu shows
//! them as it shows genies.

use vstd::prelude::*;
use vstd::string::StringExecFns;

use crate::frontmatter::{
    field, field_or, field_value, lower_keys, lowered, split, split_frontmatter,
    Frontmatter, FrontmatterView,
};
pub use crate::genies::{extract_frontmatter_name, scan_genies_with_titles, GenieMenuEntry};
use crate::genies::{category_for, category_of, is_markdown, is_markdown_path};
use crate::paths::{file_stem, file_stem_of};
use crate::listing::{keep_last_under_each_key, last_under_each_key};
use crate::text::lex_before;
use crate::window_order::{rank_before, sort_by_rank, Ranked};

verus! {

/// What the front matter of a prompt says of it.
#[derive(Debug)]
pub struct PromptMetadata {
    pub name: String,
    pub description: String,
    pub scope: String,
    pub category: Option<String>,
    pub icon: Option<String>,
    pub model: Option<String>,
}

/// Mathematical model of [`PromptMetadata`].
pub struct PromptMetadataView {
    pub name: Seq<char>,
    pub description: Seq<char>,
    pub scope: Seq<char>,
    pub category: Option<Seq<char>>,
    pub icon: Option<Seq<char>>,
    pub model: Option<Seq<char>>,
}

impl View for PromptMetadata {
    type V = PromptMetadataView;

    open spec fn view(&self) -> PromptMetadataView {
        PromptMetadataView {
            name: self.name@,
            description: self.description@,
            scope: self.scope@,
            category: self.category.deep_view(),
            icon: self.icon.deep_view(),
            model: self.model.deep_view(),
        }
    }
}

/// A prompt: its metadata and its template.
#[derive(Debug)]
pub struct PromptContent {
    pub metadata: PromptMetadata,
    pub template: String,
}

/// Mathematical model of [`PromptContent`].
pub struct PromptContentView {
    pub metadata: PromptMetadataView,
    pub template: Seq<char>,
}

impl View for PromptContent {
    type V = PromptContentView;

    open spec fn view(&self) -> PromptContentView {
        PromptContentView { metadata: self.metadata@, template: self.template@ }
    }
}

/// The metadata that fields with lower-case keys stand for.
///
/// A prompt without a name is called by `default_name`, and one without a
/// scope works on the selection.
pub open spec fn prompt_metadata(
    fields: Seq<(Seq<char>, Seq<char>)>,
    default_name: Seq<char>,
) -> PromptMetadataView {
    PromptMetadataView {
        name: field_or(fields, "name"@, default_name),
        description: field_or(fields, "description"@, Seq::empty()),
        scope: field_or(fields, "scope"@, "selection"@),
        category: field(fields, "category"@),
        icon: field(fields, "icon"@),
        model: field(fields, "model"@),
    }
}

/// Reads a prompt's metadata from fields whose keys are in lower case.
pub fn prompt_metadata_from(fields: &Vec<(String, String)>, default_name: &str) -> (r:
    PromptMetadata)
    ensures
        r@ == prompt_metadata(fields.deep_view(), default_name@),
{
    let name = match field_value(fields, "name") {
        Some(v) => v,
        None => default_name.to_owned(),
    };
    let description = match field_value(fields, "description") {
        Some(v) => v,
        None => String::new(),
    };
    let scope = match field_value(fields, "scope") {
        Some(v) => v,
        None => "selection".to_owned(),
    };
    PromptMetadata {
        name,
        description,
        scope,
        category: field_value(fields, "category"),
        icon: field_value(fields, "icon"),
        model: field_value(fields, "model"),
    }
}

/// What parsing makes of a prompt file, where `stem` is the stem of the
/// file's name.
pub open spec fn parsed_prompt(content: Seq<char>, path: Seq<char>, stem: Seq<char>) -> Result<
    PromptContentView,
    Seq<char>,
> {
    match split(content) {
        FrontmatterView::Absent { body } => Ok(
            PromptContentView { metadata: prompt_metadata(Seq::empty(), stem), template: body },
        ),
        FrontmatterView::Unclosed => Err("No closing --- in frontmatter: "@ + path),
        FrontmatterView::Present { entries, template } => Ok(
            PromptContentView { metadata: prompt_metadata(lowered(entries), stem), template },
        ),
    }
}

/// The model of what parsing returns.
pub open spec fn prompt_result_view(r: Result<PromptContent, String>) -> Result<
    PromptContentView,
    Seq<char>,
> {
    match r {
        Ok(prompt) => Ok(prompt@),
        Err(message) => Err(message@),
    }
}

/// Builds a prompt from a file that has been taken apart, the keys of its
/// entries in lower case.
pub fn prompt_from_parts(parts: Frontmatter, path: &str, stem: &str) -> (r: Result<
    PromptContent,
    String,
>)
    ensures
        prompt_result_view(r) == match parts@ {
            FrontmatterView::Absent { body } => Ok(
                PromptContentView { metadata: prompt_metadata(Seq::empty(), stem@), template: body },
            ),
            FrontmatterView::Unclosed => Err("No closing --- in frontmatter: "@ + path@),
            FrontmatterView::Present { entries, template } => Ok(
                PromptContentView { metadata: prompt_metadata(entries, stem@), template },
            ),
        },
{
    match parts {
        Frontmatter::Absent { body } => {
            let none: Vec<(String, String)> = Vec::new();
            assert(none.deep_view() =~= Seq::empty());
            Ok(PromptContent { metadata: prompt_metadata_from(&none, stem), template: body })
        },
        Frontmatter::Unclosed => {
            let mut message = "No closing --- in frontmatter: ".to_owned();
            message.append(path);
            Err(message)
        },
        Frontmatter::Present { entries, template } => {
            Ok(PromptContent { metadata: prompt_metadata_from(&entries, stem), template })
        },
    }
}

/// Parses a prompt file. `path` is where the file lies.
///
/// A file without front matter is all template; it is named after the
/// stem of its file name, as is one whose front matter gives no name. A
/// fence that is opened and never closed is an error. Keys are matched in
/// lower case.
pub fn parse_prompt(content: &str, path: &str) -> (r: Result<PromptContent, String>)
    ensures
        prompt_result_view(r) == parsed_prompt(content@, path@, file_stem_of(path@)),
        split(content@) is Unclosed <==> r is Err,
{
    let stem = file_stem(path);
    let parts = match split_frontmatter(content) {
        Frontmatter::Present { entries, template } => Frontmatter::Present {
            entries: lower_keys(entries),
            template,
        },
        Frontmatter::Absent { body } => Frontmatter::Absent { body },
        Frontmatter::Unclosed => Frontmatter::Unclosed,
    };
    let r = prompt_from_parts(parts, path, stem.as_str());
    assert(prompt_result_view(r) == parsed_prompt(content@, path@, stem@));
    r
}


/// A prompt as the list of prompts shows it.
#[derive(Debug)]
pub struct PromptEntry {
    pub name: String,
    pub path: String,
    /// Where the prompt comes from: `global` or `workspace`.
    pub source: String,
    pub category: Option<String>,
}

/// Mathematical model of [`PromptEntry`].
pub struct PromptEntryView {
    pub name: Seq<char>,
    pub path: Seq<char>,
    pub source: Seq<char>,
    pub category: Option<Seq<char>>,
}

impl View for PromptEntry {
    type V = PromptEntryView;

    open spec fn view(&self) -> PromptEntryView {
        PromptEntryView {
            name: self.name@,
            path: self.path@,
            source: self.source@,
            category: self.category.deep_view(),
        }
    }
}

impl DeepView for PromptEntry {
    type V = PromptEntryView;

    open spec fn deep_view(&self) -> PromptEntryView {
        self@
    }
}

impl Ranked for PromptEntry {
    open spec fn rank(v: PromptEntryView) -> (bool, Seq<char>) {
        (false, v.name)
    }

    fn rank_flag(&self) -> (r: bool) {
        false
    }

    fn rank_name(&self) -> (r: &str) {
        self.name.as_str()
    }
}

/// The list entry for a prompt file found below a base directory: named
/// by the stem of its file name.
pub open spec fn prompt_entry_of(path: Seq<char>, base: Seq<char>, source: Seq<char>) -> PromptEntryView {
    PromptEntryView { name: file_stem_of(path), path, source, category: category_of(path, base) }
}

/// The keyed list entries for the markdown files among the first `n`
/// paths. A prompt is keyed by its name.
pub open spec fn keyed_prompts(
    paths: Seq<Seq<char>>,
    base: Seq<char>,
    source: Seq<char>,
    n: int,
) -> Seq<(Seq<char>, PromptEntryView)>
    decreases n,
{
    if n <= 0 {
        Seq::empty()
    } else if is_markdown(paths[n - 1]) {
        keyed_prompts(paths, base, source, n - 1).push(
            (file_stem_of(paths[n - 1]), prompt_entry_of(paths[n - 1], base, source)),
        )
    } else {
        keyed_prompts(paths, base, source, n - 1)
    }
}

/// Makes the list of prompts from keyed entries. Of two prompts under one
/// key the later stays. The list is sorted by name.
pub fn list_keyed_prompts(found: Vec<(String, PromptEntry)>) -> (r: Vec<PromptEntry>)
    ensures
        r.deep_view().to_multiset() == last_under_each_key(found.deep_view()).to_multiset(),
        forall|i: int, j: int|
            0 <= i < j < r.len() ==> !lex_before(r.deep_view()[j].name, r.deep_view()[i].name),
{
    let sorted = sort_by_rank(keep_last_under_each_key(found));
    proof {
        let s = sorted.deep_view();
        assert forall|i: int, j: int| 0 <= i < j < s.len() implies !lex_before(
            s[j].name,
            s[i].name,
        ) by {
            assert(!rank_before(PromptEntry::rank(s[j]), PromptEntry::rank(s[i])));
        }
    }
    sorted
}

/// Adds to `found` the keyed entries for the markdown files among `paths`.
fn add_keyed_prompts(
    found: &mut Vec<(String, PromptEntry)>,
    paths: Vec<String>,
    base: &str,
    source: &str,
)
    ensures
        final(found).deep_view() == old(found).deep_view() + keyed_prompts(
            paths.deep_view(),
            base@,
            source@,
            paths.len() as int,
        ),
{
    let ghost start = found.deep_view();
    let ghost views = paths.deep_view();
    let ghost all = paths@;
    let count: usize = paths.len();
    assert(found.deep_view() =~= start + keyed_prompts(views, base@, source@, 0));
    for path in it: paths
        invariant
            it.seq() == all,
            all.len() == views.len(),
            all.len() == count,
            forall|j: int| 0 <= j < all.len() ==> (#[trigger] all[j])@ == views[j],
            found.deep_view() == start + keyed_prompts(views, base@, source@, it.index() as int),
    {
        let ghost before = found.deep_view();
        assert(path@ == views[it.index() as int]);
        if is_markdown_path(path.as_str()) {
            let name = file_stem(path.as_str());
            let entry = PromptEntry {
                name: name.clone(),
                category: category_for(path.as_str(), base),
                source: source.to_owned(),
                path,
            };
            found.push((name, entry));
            assert(found.deep_view() =~= before.push(
                (file_stem_of(path@), prompt_entry_of(path@, base@, source@)),
            ));
            assert(found.deep_view() =~= start + keyed_prompts(
                views,
                base@,
                source@,
                it.index() as int + 1,
            ));
        }
    }
}

/// Makes the list of prompts from the paths of the files found below the
/// global prompts directory and below that of the workspace. Files that
/// are not markdown are passed over. A prompt is keyed by its name, and
/// of two under one key the later stays, so a prompt of the workspace
/// takes the place of a global one with the same name. The list is sorted
/// by name.
pub fn list_prompts(
    global_base: &str,
    global_paths: Vec<String>,
    workspace_base: &str,
    workspace_paths: Vec<String>,
) -> (r: Vec<PromptEntry>)
    ensures
        r.deep_view().to_multiset() == last_under_each_key(
            keyed_prompts(
                global_paths.deep_view(),
                global_base@,
                "global"@,
                global_paths.len() as int,
            ) + keyed_prompts(
                workspace_paths.deep_view(),
                workspace_base@,
                "workspace"@,
                workspace_paths.len() as int,
            ),
        ).to_multiset(),
        forall|i: int, j: int|
            0 <= i < j < r.len() ==> !lex_before(r.deep_view()[j].name, r.deep_view()[i].name),
{
    let mut found: Vec<(String, PromptEntry)> = Vec::new();
    assert(found.deep_view() =~= Seq::empty());
    add_keyed_prompts(&mut found, global_paths, global_base, "global");
    add_keyed_prompts(&mut found, workspace_paths, workspace_base, "workspace");
    assert(found.deep_view() =~= keyed_prompts(
        global_paths.deep_view(),
        global_base@,
        "global"@,
        global_paths.len() as int,
    ) + keyed_prompts(
        workspace_paths.deep_view(),
        workspace_base@,
        "workspace"@,
        workspace_paths.len() as int,
    ));
    list_keyed_prompts(found)
}

} // verus!
