//! Data shared by the line classifier: counts, line types and parser states.
use vstd::prelude::*;

verus! {

/// Line counts for a single file, broken down by classification.
#[derive(Clone, Copy)]
pub struct LineCounts {
    /// Lines containing code (possibly also containing a comment).
    pub code: u32,
    /// Lines containing only comments (no code).
    pub comment: u32,
    /// Empty or whitespace-only lines.
    pub blank: u32,
}

/// The mathematical value of [`LineCounts`].
pub struct Counts {
    pub code: nat,
    pub comment: nat,
    pub blank: nat,
}

impl View for LineCounts {
    type V = Counts;

    open spec fn view(&self) -> Counts {
        Counts { code: self.code as nat, comment: self.comment as nat, blank: self.blank as nat }
    }
}

/// No lines at all.
pub open spec fn zero_counts_view() -> Counts {
    Counts { code: 0, comment: 0, blank: 0 }
}

/// Number of lines counted in `c`.
pub open spec fn counts_total(c: Counts) -> nat {
    c.code + c.comment + c.blank
}

/// Field-wise sum.
pub open spec fn counts_add(a: Counts, b: Counts) -> Counts {
    Counts { code: a.code + b.code, comment: a.comment + b.comment, blank: a.blank + b.blank }
}

/// Result of counting a single file, including any embedded child language blocks.
pub struct FileResult {
    pub counts: LineCounts,
    /// Embedded child language blocks: the child's language and its counts.
    pub children: Vec<(usize, LineCounts)>,
}

/// The mathematical value of [`FileResult`].
pub struct FileResultView {
    pub counts: Counts,
    pub children: Seq<(usize, Counts)>,
}

impl View for FileResult {
    type V = FileResultView;

    open spec fn view(&self) -> FileResultView {
        FileResultView {
            counts: self.counts@,
            children: self.children@.map_values(|c: (usize, LineCounts)| (c.0, c.1@)),
        }
    }
}

/// Sum of the line totals of a list of child blocks.
pub open spec fn children_total(children: Seq<(usize, Counts)>) -> nat
    decreases children.len(),
{
    if children.len() == 0 {
        0
    } else {
        children_total(children.drop_last()) + counts_total(children.last().1)
    }
}

/// Every line counted in a result: the file's own lines and those of its child blocks.
pub open spec fn grand_total(r: FileResultView) -> nat {
    counts_total(r.counts) + children_total(r.children)
}

/// Field-wise sum of a list of child blocks.
pub open spec fn children_sum(children: Seq<(usize, Counts)>) -> Counts
    decreases children.len(),
{
    if children.len() == 0 {
        zero_counts_view()
    } else {
        counts_add(children_sum(children.drop_last()), children.last().1)
    }
}

pub proof fn lemma_children_total_append(a: Seq<(usize, Counts)>, b: Seq<(usize, Counts)>)
    ensures
        children_total(a + b) == children_total(a) + children_total(b),
        children_sum(a + b) == counts_add(children_sum(a), children_sum(b)),
    decreases b.len(),
{
    if b.len() == 0 {
        assert(a + b =~= a);
    } else {
        assert((a + b).drop_last() =~= a + b.drop_last());
        lemma_children_total_append(a, b.drop_last());
    }
}

pub proof fn lemma_children_sum_total(a: Seq<(usize, Counts)>)
    ensures
        counts_total(children_sum(a)) == children_total(a),
    decreases a.len(),
{
    if a.len() > 0 {
        lemma_children_sum_total(a.drop_last());
    }
}

/// How the line being scanned is classified so far.
#[derive(Clone, Copy, PartialEq, Eq, Structural)]
pub enum LineType {
    Blank,
    Code,
    Comment,
}

/// Where the classifier stands; regions are given by their index in the
/// language's region list.
#[derive(Clone, Copy, PartialEq, Eq, Structural)]
pub enum ParseState {
    Normal,
    LineComment,
    BlockComment { depth: u8, region: usize },
    InString { region: usize },
    InChild { region: usize, child_lang: Option<usize> },
}

/// The token that starts at the current position.
#[derive(Clone, Copy, PartialEq, Eq, Structural)]
pub enum TokenMatch {
    LineComment,
    BlockComment { region: usize },
    StringLiteral { region: usize },
    Child { region: usize },
    Other,
}

} // verus!
