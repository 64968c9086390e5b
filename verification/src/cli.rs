//! The command-line options and what the program derives from them.
use vstd::prelude::*;

use crate::engine::language::name_language;
use crate::engine::text::strings_view;
use crate::display::decimal;
use crate::display::decimal_string;
use crate::is_supported_language;

verus! {

/// Column the output rows are sorted by.
#[derive(Clone, Copy, PartialEq, Eq, Structural)]
pub enum SortColumn {
    Files,
    Lines,
    Blank,
    Comment,
    Code,
}

/// How the output is written.
#[derive(Clone, Copy, PartialEq, Eq, Structural)]
pub enum OutputFormat {
    Table,
    Json,
    Csv,
}

/// The options of a run.
pub struct Args {
    /// Paths to analyze (files or directories).
    pub paths: Vec<String>,
    /// Directories to exclude, by name.
    pub exclude: Option<Vec<String>>,
    /// Follow symbolic links.
    pub follow_symlinks: bool,
    /// Output format.
    pub output: Option<OutputFormat>,
    /// Sort by this column, largest first.
    pub sort: Option<SortColumn>,
    /// Sort by this column, smallest first.
    pub rsort: Option<SortColumn>,
    /// Only count these languages.
    pub types: Option<Vec<String>>,
    /// Do not honour ignore files.
    pub no_ignore: bool,
    /// No colors in table output.
    pub no_color: bool,
    /// List the supported languages and exit.
    pub languages: bool,
    /// Leave out the rows of embedded child languages.
    pub compact: bool,
    /// Do not cross file-system boundaries.
    pub same_filesystem: bool,
}

/// The views of a list of string slices.
pub open spec fn strs_view(v: Seq<&str>) -> Seq<Seq<char>> {
    Seq::new(v.len(), |i: int| v[i]@)
}

/// The views of an optional list of strings.
pub open spec fn opt_strings_view(v: Option<Vec<String>>) -> Option<Seq<Seq<char>>> {
    match v {
        Some(l) => Some(strings_view(l@)),
        None => None,
    }
}

/// Index of the first name of `names` that names no supported language.
pub open spec fn first_unknown(names: Seq<Seq<char>>) -> Option<int>
    decreases names.len(),
{
    if names.len() == 0 {
        None
    } else if name_language(names[0]).is_none() {
        Some(0)
    } else {
        match first_unknown(names.drop_first()) {
            Some(i) => Some(i + 1),
            None => None,
        }
    }
}

fn borrow_all(v: &Vec<String>) -> (r: Vec<&str>)
    ensures
        strs_view(r@) == strings_view(v@),
{
    let mut r: Vec<&str> = Vec::new();
    let mut i: usize = 0;
    while i < v.len()
        invariant
            i <= v.len(),
            r.len() == i,
            forall|k: int| 0 <= k < i ==> #[trigger] r@[k]@ == v@[k]@,
        decreases v.len() - i,
    {
        r.push(v[i].as_str());
        i += 1;
    }
    assert(strs_view(r@) =~= strings_view(v@));
    r
}

impl Args {
    /// The output format; a table unless another was asked for.
    pub fn format(&self) -> (r: OutputFormat)
        ensures
            r == match self.output {
                Some(f) => f,
                None => OutputFormat::Table,
            },
    {
        match self.output {
            Some(f) => f,
            None => OutputFormat::Table,
        }
    }

    /// The column to sort by: the one of `--sort` or `--rsort`, else code.
    pub fn sort_column(&self) -> (r: SortColumn)
        ensures
            r == match (self.sort, self.rsort) {
                (Some(c), _) => c,
                (None, Some(c)) => c,
                (None, None) => SortColumn::Code,
            },
    {
        match (self.sort, self.rsort) {
            (Some(c), _) => c,
            (None, Some(c)) => c,
            (None, None) => SortColumn::Code,
        }
    }

    /// Whether rows are sorted smallest first (`--rsort` without `--sort`).
    pub fn sort_reverse(&self) -> (r: bool)
        ensures
            r == (self.sort is None && self.rsort is Some),
    {
        self.sort.is_none() && self.rsort.is_some()
    }

    /// The directories to exclude; none when none were given.
    pub fn excluded_dirs(&self) -> (r: Vec<&str>)
        ensures
            strs_view(r@) == match self.exclude {
                Some(v) => strings_view(v@),
                None => Seq::empty(),
            },
    {
        match &self.exclude {
            Some(v) => borrow_all(v),
            None => {
                let r: Vec<&str> = Vec::new();
                assert(strs_view(r@) =~= Seq::<Seq<char>>::empty());
                r
            },
        }
    }

    /// The languages to count, when the run is restricted to some.
    pub fn types_filter(&self) -> (r: Option<Vec<&str>>)
        ensures
            match (r, self.types) {
                (Some(f), Some(t)) => strs_view(f@) == strings_view(t@),
                (None, None) => true,
                _ => false,
            },
    {
        match &self.types {
            Some(v) => Some(borrow_all(v)),
            None => None,
        }
    }

    /// The first name of the types filter that names no supported language;
    /// a run with such a name fails with an `UnknownLanguage` error.
    pub fn unknown_type(&self) -> (r: Option<usize>)
        ensures
            match self.types {
                Some(t) => match r {
                    Some(k) => first_unknown(strings_view(t@)) == Some(k as int),
                    None => first_unknown(strings_view(t@)) is None,
                },
                None => r is None,
            },
    {
        match &self.types {
            None => None,
            Some(v) => {
                let ghost names = strings_view(v@);
                let mut i: usize = 0;
                while i < v.len()
                    invariant
                        i <= v.len(),
                        names == strings_view(v@),
                        self.types == Some(*v),
                        forall|k: int| 0 <= k < i ==> name_language(#[trigger] names[k]).is_some(),
                    decreases v.len() - i,
                {
                    assert(names[i as int] == v@[i as int]@);
                    if !is_supported_language(v[i].as_str()) {
                        proof {
                            lemma_first_unknown(names, i as int);
                        }
                        return Some(i);
                    }
                    i += 1;
                }
                proof {
                    lemma_first_unknown(names, names.len() as int);
                }
                None
            },
        }
    }
}

impl Args {
    /// What the report says it counted: the path when there is one, else
    /// the number of paths.
    pub fn label(&self) -> (r: String)
        ensures
            r@ == if self.paths@.len() == 1 {
                self.paths@[0]@
            } else {
                decimal(self.paths@.len()) + " paths"@
            },
    {
        if self.paths.len() == 1 {
            self.paths[0].clone()
        } else {
            let mut s = decimal_string(self.paths.len() as u128);
            s.append(" paths");
            s
        }
    }
}

/// The first unknown name is the first one for which the lookup fails.
proof fn lemma_first_unknown(names: Seq<Seq<char>>, i: int)
    requires
        0 <= i <= names.len(),
        forall|k: int| 0 <= k < i ==> name_language(#[trigger] names[k]).is_some(),
    ensures
        i < names.len() && name_language(names[i]).is_none() ==> first_unknown(names) == Some(i),
        i == names.len() ==> first_unknown(names) is None,
    decreases i,
{
    if i > 0 {
        let tail = names.drop_first();
        assert(name_language(names[0]).is_some());
        assert forall|k: int| 0 <= k < i - 1 implies name_language(#[trigger] tail[k]).is_some() by {
            assert(tail[k] == names[k + 1]);
        }
        lemma_first_unknown(tail, i - 1);
        if i < names.len() {
            assert(tail[i - 1] == names[i]);
        }
    }
}

} // verus!
