//! Git repository information gathered from a directory tree.
use vstd::prelude::*;

use crate::engine::text::sort_dedup;
use crate::engine::text::strictly_sorted;
use crate::engine::text::strings_view;

verus! {

/// Git repository information collected from a directory tree.
pub struct GitInfo {
    /// Unique ignore patterns found, in increasing order.
    pub patterns: Vec<String>,
    /// Number of git repositories detected.
    pub repo_count: usize,
}

/// The information of a tree in which `repo_count` repositories were found
/// and `patterns` were read from its `.gitignore` files.
pub fn git_info(patterns: Vec<String>, repo_count: usize) -> (r: GitInfo)
    ensures
        r.repo_count == repo_count,
        strictly_sorted(strings_view(r.patterns@)),
        strings_view(r.patterns@).to_set() == strings_view(patterns@).to_set(),
{
    GitInfo { patterns: sort_dedup(patterns), repo_count }
}

} // verus!
