//! The output of a counting run.
use vstd::prelude::*;

verus! {

/// Per-language line statistics: a row of the output keyed by language name.
pub struct LangStats {
    /// Number of files matched to this language; child rows use `0` because
    /// they are embedded blocks inside a parent file.
    pub n_files: usize,
    pub lines: usize,
    pub blank: usize,
    pub comment: usize,
    pub code: usize,
    /// Embedded child language blocks, keyed by child language name.
    pub children: Vec<(String, LangStats)>,
}

/// The numbers of one row.
pub struct Totals {
    pub n_files: nat,
    pub lines: nat,
    pub blank: nat,
    pub comment: nat,
    pub code: nat,
}

/// The numbers of a row of the output.
pub open spec fn totals_of(s: LangStats) -> Totals {
    Totals {
        n_files: s.n_files as nat,
        lines: s.lines as nat,
        blank: s.blank as nat,
        comment: s.comment as nat,
        code: s.code as nat,
    }
}

/// A nested row: its name, its numbers and how many rows it nests in turn.
pub open spec fn child_row_view(p: (String, LangStats)) -> (Seq<char>, Totals, nat) {
    (p.0@, totals_of(p.1), p.1.children@.len())
}

/// The nested rows of a row.
pub open spec fn child_rows_view(v: Seq<(String, LangStats)>) -> Seq<(Seq<char>, Totals, nat)> {
    Seq::new(v.len(), |i: int| child_row_view(v[i]))
}

/// The mathematical value of a row: its numbers and its nested rows.
pub struct RowView {
    pub totals: Totals,
    pub children: Seq<(Seq<char>, Totals, nat)>,
}

/// The mathematical value of a row.
pub open spec fn row_view(s: LangStats) -> RowView {
    RowView { totals: totals_of(s), children: child_rows_view(s.children@) }
}

/// The named rows of an output.
pub open spec fn rows_view(v: Seq<(String, LangStats)>) -> Seq<(Seq<char>, RowView)> {
    Seq::new(v.len(), |i: int| (v[i].0@, row_view(v[i].1)))
}

/// Complete counting output with per-language stats and walk metadata.
pub struct OutputStats {
    /// Language rows keyed by language name; always ends with the `SUM` row of
    /// totals across all counted files.
    pub languages: Vec<(String, LangStats)>,
    pub git_repos: usize,
    pub gitignore_patterns: Vec<String>,
}

/// Structured error payload, written to stderr as JSON.
pub struct ErrorPayload {
    pub error: ErrorBody,
}

/// Error details: a kind, a message and optional key/value details.
pub struct ErrorBody {
    pub kind: String,
    pub message: String,
    pub details: Option<Vec<(String, String)>>,
}

} // verus!
