//! Counting Jupyter notebooks: code cells as Python, text cells as Markdown.
//!
//! The notebook document itself is read (JSON) by the caller into the values of
//! this module; counting works on those values.
use vstd::prelude::*;
use vstd::string::StringSliceAdditionalSpecFns;
use vstd::utf8::encode_utf8;

use super::model::MAX_CONTENT_LEN;
use super::model::aggregate;
use super::model::children_in_range;
use super::model::count_file_spec;
use crate::engine::language::lemma_registry_prefixes;
use super::parser::count_file;
use super::parser::helpers::aggregate_counts_with_children;
use super::parser::helpers::append_bytes;
use super::parser::helpers::zero_counts;
use super::types::Counts;
use super::types::FileResult;
use super::types::FileResultView;
use super::types::LineCounts;
use super::types::children_sum;
use super::types::children_total;
use super::types::counts_add;
use super::types::counts_total;
use super::types::grand_total;
use super::types::lemma_children_sum_total;
use super::types::zero_counts_view;
use crate::engine::language::MARKDOWN;
use crate::engine::language::PYTHON;
use crate::engine::language::language;
use crate::engine::language::language_view;
use crate::engine::text::ascii_lower;
use crate::engine::text::chars_eq;
use crate::engine::text::chars_of;
use crate::engine::text::to_ascii_lower;

verus! {

/// The source of a notebook cell: one string or a list of lines.
pub enum JupyterSource {
    Single(String),
    Many(Vec<String>),
}

/// A notebook cell.
pub struct JupyterCell {
    pub cell_type: String,
    pub source: Option<JupyterSource>,
}

/// A notebook document.
pub struct JupyterNotebook {
    pub cells: Vec<JupyterCell>,
}

/// The UTF-8 bytes of a list of lines, joined without separator.
pub open spec fn joined_bytes(lines: Seq<String>) -> Seq<u8>
    decreases lines.len(),
{
    if lines.len() == 0 {
        seq![]
    } else {
        joined_bytes(lines.drop_last()) + encode_utf8(lines.last()@)
    }
}

/// The text of a cell, as UTF-8 bytes.
pub open spec fn source_bytes(source: Option<JupyterSource>) -> Seq<u8> {
    match source {
        Some(JupyterSource::Single(s)) => encode_utf8(s@),
        Some(JupyterSource::Many(lines)) => joined_bytes(lines@),
        None => seq![],
    }
}

/// A cell whose type is `markdown`, without regard to ASCII case.
pub open spec fn is_markdown_cell(c: JupyterCell) -> bool {
    ascii_lower(c.cell_type@) == seq!['m', 'a', 'r', 'k', 'd', 'o', 'w', 'n']
}

/// The language a cell is counted as.
pub open spec fn cell_language(c: JupyterCell) -> usize {
    if is_markdown_cell(c) {
        MARKDOWN
    } else {
        PYTHON
    }
}

/// All lines of a cell: its own and those of its child blocks.
pub open spec fn cell_counts(c: JupyterCell) -> Counts {
    aggregate(count_file_spec(source_bytes(c.source), language_view(cell_language(c) as int)))
}

/// Lines of the code cells and of the text cells among `cells`.
pub open spec fn notebook_totals(cells: Seq<JupyterCell>) -> (Counts, Counts)
    decreases cells.len(),
{
    if cells.len() == 0 {
        (zero_counts_view(), zero_counts_view())
    } else {
        let prev = notebook_totals(cells.drop_last());
        let c = cells.last();
        if is_markdown_cell(c) {
            (prev.0, counts_add(prev.1, cell_counts(c)))
        } else {
            (counts_add(prev.0, cell_counts(c)), prev.1)
        }
    }
}

/// What counting a notebook yields: all its lines, with the text cells as a
/// Markdown child block and the code cells as a Python child block (each only
/// when it has lines). A document that is not a notebook counts nothing.
pub open spec fn notebook_result(notebook: Option<JupyterNotebook>) -> FileResultView {
    match notebook {
        None => FileResultView { counts: zero_counts_view(), children: seq![] },
        Some(nb) => {
            let (py, md) = notebook_totals(nb.cells@);
            let md_part: Seq<(usize, Counts)> = if counts_total(md) > 0 {
                seq![(MARKDOWN, md)]
            } else {
                seq![]
            };
            let py_part: Seq<(usize, Counts)> = if counts_total(py) > 0 {
                seq![(PYTHON, py)]
            } else {
                seq![]
            };
            FileResultView { counts: counts_add(py, md), children: md_part + py_part }
        },
    }
}

/// The size a notebook's cells may take: every cell's lines fit in the counts.
pub open spec fn cells_weight(cells: Seq<JupyterCell>) -> nat
    decreases cells.len(),
{
    if cells.len() == 0 {
        0
    } else {
        cells_weight(cells.drop_last()) + 3 * source_bytes(cells.last().source).len() + 1
    }
}

/// The text of a cell as UTF-8 bytes.
fn cell_source_bytes(source: &Option<JupyterSource>) -> (r: Vec<u8>)
    ensures
        r@ == source_bytes(*source),
{
    let mut out: Vec<u8> = Vec::new();
    match source {
        Some(JupyterSource::Single(s)) => {
            append_bytes(&mut out, s.as_str().as_bytes());
            assert(out@ =~= encode_utf8(s@));
        },
        Some(JupyterSource::Many(lines)) => {
            let mut i: usize = 0;
            assert(lines@.take(0) =~= Seq::<String>::empty());
            while i < lines.len()
                invariant
                    i <= lines.len(),
                    out@ == joined_bytes(lines@.take(i as int)),
                decreases lines.len() - i,
            {
                append_bytes(&mut out, lines[i].as_str().as_bytes());
                assert(lines@.take(i + 1).drop_last() =~= lines@.take(i as int));
                i += 1;
            }
            assert(lines@.take(lines.len() as int) =~= lines@);
        },
        None => {},
    }
    out
}

/// Whether a cell's type is `markdown`, without regard to ASCII case.
fn cell_is_markdown(c: &JupyterCell) -> (r: bool)
    ensures
        r == is_markdown_cell(*c),
{
    let lower = to_ascii_lower(&chars_of(c.cell_type.as_str()));
    let markdown = vec!['m', 'a', 'r', 'k', 'd', 'o', 'w', 'n'];
    assert(markdown@ =~= seq!['m', 'a', 'r', 'k', 'd', 'o', 'w', 'n']);
    chars_eq(&lower, &markdown)
}

proof fn lemma_cells_weight_prefix(cells: Seq<JupyterCell>, i: int)
    requires
        0 <= i <= cells.len(),
    ensures
        cells_weight(cells.take(i)) <= cells_weight(cells),
    decreases cells.len() - i,
{
    if i < cells.len() {
        lemma_cells_weight_prefix(cells, i + 1);
        assert(cells.take(i + 1).drop_last() =~= cells.take(i));
    } else {
        assert(cells.take(i) =~= cells);
    }
}

/// Count a notebook read from its document; `None` when the document is not a notebook.
pub fn count_jupyter_cells(notebook: Option<&JupyterNotebook>) -> (r: FileResult)
    requires
        notebook matches Some(nb) ==> cells_weight(nb.cells@) < u32::MAX,
    ensures
        r@ == notebook_result(
            match notebook {
                Some(nb) => Some(*nb),
                None => None,
            },
        ),
        children_in_range(r@.children),
        notebook matches Some(nb) ==> children_total(r@.children) <= cells_weight(nb.cells@),
        notebook is None ==> r@.children.len() == 0,
{
    let nb = match notebook {
        Some(nb) => nb,
        None => {
            let r = FileResult { counts: zero_counts(), children: Vec::new() };
            assert(r@.children =~= Seq::<(usize, Counts)>::empty());
            return r;
        },
    };
    let mut py_total = zero_counts();
    let mut md_total = zero_counts();
    let ghost cells = nb.cells@;
    let mut i: usize = 0;
    assert(cells.take(0) =~= Seq::<JupyterCell>::empty());
    while i < nb.cells.len()
        invariant
            i <= nb.cells.len(),
            cells == nb.cells@,
            cells_weight(cells) < u32::MAX,
            (py_total@, md_total@) == notebook_totals(cells.take(i as int)),
            counts_total(py_total@) + counts_total(md_total@) <= cells_weight(cells.take(i as int)),
        decreases nb.cells.len() - i,
    {
        let cell = &nb.cells[i];
        let src = cell_source_bytes(&cell.source);
        proof {
            lemma_cells_weight_prefix(cells, i + 1);
            assert(cells.take(i + 1).drop_last() =~= cells.take(i as int));
            assert(cells.take(i + 1).last() == *cell);
        }
        let markdown = cell_is_markdown(cell);
        let lang_id = if markdown {
            MARKDOWN
        } else {
            PYTHON
        };
        let lang = language(lang_id);
        proof {
            lemma_registry_prefixes(lang_id as int);
        }
        let r = count_file(src.as_slice(), &lang);
        proof {
            lemma_children_sum_total(r@.children);
        }
        let t = aggregate_counts_with_children(&r);
        if markdown {
            md_total.code = md_total.code + t.code;
            md_total.comment = md_total.comment + t.comment;
            md_total.blank = md_total.blank + t.blank;
        } else {
            py_total.code = py_total.code + t.code;
            py_total.comment = py_total.comment + t.comment;
            py_total.blank = py_total.blank + t.blank;
        }
        i += 1;
    }
    assert(cells.take(i as int) =~= cells);
    let counts = LineCounts {
        code: py_total.code + md_total.code,
        comment: py_total.comment + md_total.comment,
        blank: py_total.blank + md_total.blank,
    };
    let mut children: Vec<(usize, LineCounts)> = Vec::new();
    if md_total.code + md_total.comment + md_total.blank > 0 {
        children.push((MARKDOWN, md_total));
    }
    if py_total.code + py_total.comment + py_total.blank > 0 {
        children.push((PYTHON, py_total));
    }
    let r = FileResult { counts, children };
    assert(r@.children =~= notebook_result(Some(*nb)).children);
    proof {
        reveal_with_fuel(children_total, 3);
        assert(r@.children.len() <= 2);
        if r@.children.len() == 2 {
            assert(r@.children.drop_last().drop_last() =~= Seq::<(usize, Counts)>::empty());
        } else if r@.children.len() == 1 {
            assert(r@.children.drop_last() =~= Seq::<(usize, Counts)>::empty());
        }
    }
    r
}

/// Whether a notebook is small enough to count: its cells weigh less than
/// `u32::MAX`.
pub fn notebook_fits(nb: &JupyterNotebook) -> (r: bool)
    ensures
        r == (cells_weight(nb.cells@) < u32::MAX),
{
    let ghost cells = nb.cells@;
    let mut total: u64 = 0;
    let mut i: usize = 0;
    assert(cells.take(0) =~= Seq::<JupyterCell>::empty());
    while i < nb.cells.len()
        invariant
            i <= nb.cells.len(),
            cells == nb.cells@,
            total == cells_weight(cells.take(i as int)),
            total < u32::MAX,
        decreases nb.cells.len() - i,
    {
        let src = cell_source_bytes(&nb.cells[i].source);
        assert(cells.take(i + 1).drop_last() =~= cells.take(i as int));
        assert(cells.take(i + 1).last() == nb.cells@[i as int]);
        proof {
            lemma_cells_weight_prefix(cells, i + 1);
        }
        if src.len() as u64 >= 0x5555_5555u64 {
            proof {
                assert(cells_weight(cells.take(i + 1)) >= u32::MAX);
            }
            return false;
        }
        let next = total + 3 * (src.len() as u64) + 1;
        if next >= 0xFFFF_FFFFu64 {
            return false;
        }
        total = next;
        i += 1;
    }
    assert(cells.take(i as int) =~= cells);
    true
}

} // verus!
