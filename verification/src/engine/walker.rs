//! The decisions of the directory walk: which entries are entered, what each
//! entry found is, which lines of an ignore file are patterns, and the result.
use vstd::prelude::*;

use crate::engine::text::chars_of;
use crate::engine::text::sort_dedup;
use crate::engine::text::str_eq;
use crate::engine::text::strictly_sorted;
use crate::engine::text::strings_view;
use crate::engine::text::trim;
use crate::engine::text::trim_range;
use vstd::string::StrSliceExecFns;

verus! {

/// Configuration of a directory walk.
pub struct WalkConfig {
    pub roots: Vec<String>,
    pub excluded: Vec<String>,
    pub follow_symlinks: bool,
    pub no_ignore: bool,
    pub same_filesystem: bool,
}

/// The result of a complete walk.
pub struct WalkResult {
    pub git_repos: usize,
    pub gitignore_patterns: Vec<String>,
}

/// The result of a walk over no roots.
pub fn empty_walk_result() -> (r: WalkResult)
    ensures
        r.git_repos == 0,
        r.gitignore_patterns@.len() == 0,
{
    WalkResult { git_repos: 0, gitignore_patterns: Vec::new() }
}

/// The pattern a line of an ignore file holds: the line trimmed, unless that
/// is empty or a `#` comment.
pub open spec fn ignore_line_spec(line: Seq<char>) -> Option<Seq<char>> {
    let t = trim(line);
    if t.len() == 0 || t[0] == '#' {
        None
    } else {
        Some(t)
    }
}

/// The pattern a line of an ignore file holds, if any.
pub fn ignore_line_pattern(line: &str) -> (r: Option<String>)
    ensures
        match r {
            Some(p) => ignore_line_spec(line@) == Some(p@),
            None => ignore_line_spec(line@) is None,
        },
{
    let c = chars_of(line);
    let (start, end) = trim_range(&c);
    proof {
        assert(trim(line@).len() == end - start);
        if start < end {
            assert(trim(line@)[0] == c@[start as int]);
        }
    }
    if start == end || c[start] == '#' {
        None
    } else {
        let t = line.substring_char(start, end);
        Some(t.to_owned())
    }
}

/// The patterns of the lines of an ignore file, in file order.
pub open spec fn ignore_patterns_spec(lines: Seq<Seq<char>>) -> Seq<Seq<char>>
    decreases lines.len(),
{
    if lines.len() == 0 {
        Seq::empty()
    } else {
        let prev = ignore_patterns_spec(lines.drop_last());
        match ignore_line_spec(lines.last()) {
            Some(p) => prev.push(p),
            None => prev,
        }
    }
}

/// The patterns of the lines of an ignore file, in file order.
pub fn ignore_patterns(lines: &Vec<String>) -> (r: Vec<String>)
    ensures
        strings_view(r@) == ignore_patterns_spec(strings_view(lines@)),
{
    let ghost lv = strings_view(lines@);
    let mut out: Vec<String> = Vec::new();
    let mut i: usize = 0;
    assert(lv.take(0) =~= Seq::<Seq<char>>::empty());
    assert(strings_view(out@) =~= Seq::<Seq<char>>::empty());
    while i < lines.len()
        invariant
            i <= lines.len(),
            lv == strings_view(lines@),
            strings_view(out@) == ignore_patterns_spec(lv.take(i as int)),
        decreases lines.len() - i,
    {
        assert(lv.take(i + 1).drop_last() =~= lv.take(i as int));
        assert(lv.take(i + 1).last() == lines@[i as int]@);
        let ghost before = strings_view(out@);
        match ignore_line_pattern(lines[i].as_str()) {
            Some(p) => {
                out.push(p);
                assert(strings_view(out@) =~= before.push(p@));
            },
            None => {},
        }
        i += 1;
    }
    assert(lv.take(i as int) =~= lv);
    out
}

/// Whether the walk keeps an entry: a directory is left out when its name is
/// one of the excluded names; anything else is kept.
pub open spec fn entry_kept(is_dir: bool, name: Seq<char>, excluded: Seq<Seq<char>>) -> bool {
    !(is_dir && excluded.contains(name))
}

/// Law: excluding more names only leaves out more directories: an entry kept
/// with the longer list of excluded names is kept with the shorter one, a
/// directory whose name is excluded is never kept, and a file always is.
pub proof fn lemma_exclusion_antitone(
    is_dir: bool,
    name: Seq<char>,
    excluded: Seq<Seq<char>>,
    more: Seq<Seq<char>>,
)
    requires
        forall|i: int| 0 <= i < excluded.len() ==> more.contains(#[trigger] excluded[i]),
    ensures
        entry_kept(is_dir, name, more) ==> entry_kept(is_dir, name, excluded),
        is_dir && more.contains(name) ==> !entry_kept(is_dir, name, more),
        !is_dir ==> entry_kept(is_dir, name, more),
{
    if is_dir && excluded.contains(name) {
        let i = choose|i: int| 0 <= i < excluded.len() && excluded[i] == name;
        assert(more.contains(excluded[i]));
    }
}

/// Whether the walk enters an entry: a directory is left out when its name is
/// one of the excluded names; anything else is kept.
pub fn keep_entry(is_dir: bool, name: &str, excluded: &Vec<String>) -> (r: bool)
    ensures
        r == !(is_dir && exists|i: int| 0 <= i < excluded@.len() && #[trigger] excluded@[i]@ == name@),
        r == entry_kept(is_dir, name@, strings_view(excluded@)),
{
    proof {
        let names = strings_view(excluded@);
        if exists|i: int| 0 <= i < excluded@.len() && #[trigger] excluded@[i]@ == name@ {
            let i = choose|i: int| 0 <= i < excluded@.len() && #[trigger] excluded@[i]@ == name@;
            assert(names[i] == name@);
        }
        if names.contains(name@) {
            let i = choose|i: int| 0 <= i < names.len() && names[i] == name@;
            assert(excluded@[i]@ == name@);
        }
    }
    if !is_dir {
        return true;
    }
    let mut i: usize = 0;
    while i < excluded.len()
        invariant
            i <= excluded.len(),
            is_dir,
            forall|k: int| 0 <= k < i ==> #[trigger] excluded@[k]@ != name@,
        decreases excluded.len() - i,
    {
        if str_eq(excluded[i].as_str(), name) {
            assert(excluded@[i as int]@ == name@);
            assert(strings_view(excluded@)[i as int] == name@);
            return false;
        }
        i += 1;
    }
    true
}

/// What the walk does with an entry it reaches.
#[derive(Clone, Copy, PartialEq, Eq, Structural)]
pub enum EntryAction {
    /// A `.git` directory: one more repository.
    CountRepo,
    /// An ignore file: its patterns are collected.
    ReadIgnoreFile,
    /// A file to count.
    Send,
    /// Anything else.
    Skip,
}

/// What the walk does with an entry named `name`.
pub fn entry_action(is_dir: bool, is_file: bool, name: &str) -> (r: EntryAction)
    ensures
        r == if is_dir {
            if name@ == ".git"@ {
                EntryAction::CountRepo
            } else {
                EntryAction::Skip
            }
        } else if is_file {
            if name@ == ".gitignore"@ || name@ == ".prettierignore"@ {
                EntryAction::ReadIgnoreFile
            } else {
                EntryAction::Send
            }
        } else {
            EntryAction::Skip
        },
{
    if is_dir {
        if str_eq(name, ".git") {
            EntryAction::CountRepo
        } else {
            EntryAction::Skip
        }
    } else if is_file {
        if str_eq(name, ".gitignore") || str_eq(name, ".prettierignore") {
            EntryAction::ReadIgnoreFile
        } else {
            EntryAction::Send
        }
    } else {
        EntryAction::Skip
    }
}

/// The result of a walk that found `git_repos` repositories and collected
/// `patterns`: the patterns sorted, each once.
pub fn finish_walk(git_repos: usize, patterns: Vec<String>) -> (r: WalkResult)
    ensures
        r.git_repos == git_repos,
        strictly_sorted(strings_view(r.gitignore_patterns@)),
        strings_view(r.gitignore_patterns@).to_set() == strings_view(patterns@).to_set(),
{
    WalkResult { git_repos, gitignore_patterns: sort_dedup(patterns) }
}

} // verus!
