//! Entries of a directory listing.

use vstd::prelude::*;

use crate::text::has_prefix;

verus! {

/// Whether a name marks a file as hidden: it does when it starts with a dot.
pub fn is_hidden_by_name(name: &str) -> (r: bool)
    ensures
        r == "."@.is_prefix_of(name@),
{
    has_prefix(name, ".")
}

/// One entry of a directory.
#[derive(Debug)]
pub struct DirectoryEntry {
    pub name: String,
    pub path: String,
    pub is_directory: bool,
    pub is_hidden: bool,
}

/// Makes the entry for a file. `hidden_by_metadata` says whether the
/// file system marks the file as hidden; a file is also hidden by its name.
pub fn directory_entry(name: String, path: String, is_directory: bool, hidden_by_metadata: bool) -> (entry:
    DirectoryEntry)
    ensures
        entry.name == name,
        entry.path == path,
        entry.is_directory == is_directory,
        entry.is_hidden == (hidden_by_metadata || "."@.is_prefix_of(name@)),
{
    let is_hidden = hidden_by_metadata || is_hidden_by_name(name.as_str());
    DirectoryEntry { name, path, is_directory, is_hidden }
}

} // verus!
