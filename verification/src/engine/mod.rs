//! The counting engine: language definitions, the byte scanner, the line
//! classifier and the statistics aggregation; and the decisions taken for each
//! file of a run.
pub mod analyze;
pub mod fsm;
pub mod git;
pub mod language;
pub mod reader;
pub mod registry;
pub mod scanner;
pub mod stats;
pub mod text;
pub mod walker;

use vstd::prelude::*;

use crate::engine::fsm::model::MAX_CONTENT_LEN;
use crate::engine::fsm::model::count_file_spec;
use crate::engine::fsm::notebook::JupyterNotebook;
use crate::engine::fsm::notebook::cells_weight;
use crate::engine::fsm::notebook::count_jupyter_cells;
use crate::engine::fsm::notebook::notebook_result;
use crate::engine::language::lemma_registry_prefixes;
use crate::engine::fsm::parser::count_file;
use crate::engine::fsm::types::grand_total;
use crate::engine::fsm::types::children_total;
use crate::engine::fsm::types::counts_total;
use crate::engine::language::LANGUAGE_COUNT;
use crate::engine::language::extension_id;
use crate::engine::language::extension_language;
use crate::engine::language::filename_id;
use crate::engine::language::filename_language;
use crate::engine::language::language;
use crate::engine::language::language_view;
use crate::engine::language::names_table;
use crate::engine::language::shebang_id;
use crate::engine::language::shebang_language;
use crate::engine::language::LanguageDef;
use crate::engine::language::StructuredFormat;
use crate::engine::stats::ThreadStats;
use crate::engine::stats::add_spec;
use crate::engine::stats::empty_stats;
use crate::engine::stats::lemma_add_children_bounded;
use crate::engine::stats::slot_files;
use crate::engine::stats::slot_lines;
use crate::engine::stats::stats_fit;
use crate::engine::stats::stats_wf;
use crate::engine::text::ascii_lower;
use crate::engine::text::chars_eq;
use crate::engine::text::chars_of;
use crate::engine::text::strings_view;
use crate::engine::text::to_ascii_lower;
use crate::engine::text::trailing_ws;
use crate::engine::text::trim_end_chars;

verus! {

/// Configuration of a counting run.
pub struct EngineConfig {
    /// Directory names to leave out.
    pub excluded: Vec<String>,
    pub follow_symlinks: bool,
    /// Disable ignore-file filtering (`.gitignore`, `.ignore`, `.prettierignore`).
    pub no_ignore: bool,
    /// If set, only count files whose language name matches one of these.
    pub types_filter: Option<Vec<String>>,
    /// Do not cross file-system boundaries.
    pub same_filesystem: bool,
}

impl Default for EngineConfig {
    fn default() -> (r: Self)
        ensures
            r.excluded@.len() == 0,
            !r.follow_symlinks,
            !r.no_ignore,
            r.types_filter is None,
            !r.same_filesystem,
    {
        EngineConfig {
            excluded: Vec::new(),
            follow_symlinks: false,
            no_ignore: false,
            types_filter: None,
            same_filesystem: false,
        }
    }
}

/// The language a file's name selects: by its extension, else by its whole
/// name, both compared in ASCII lower case.
pub open spec fn name_selects(ext: Seq<char>, file_name: Seq<char>) -> Option<usize> {
    match extension_language(ascii_lower(ext)) {
        Some(l) => Some(l),
        None => filename_language(ascii_lower(file_name)),
    }
}

/// Law: a file's extension decides its language when it selects one;
/// otherwise its file name decides, whether or not the file has an extension
/// (so `meson.build` is found by its name).
pub proof fn lemma_extension_then_name(ext: Seq<char>, file_name: Seq<char>)
    ensures
        extension_language(ascii_lower(ext)) matches Some(l) ==> name_selects(ext, file_name)
            == Some(l),
        extension_language(ascii_lower(ext)) is None ==> name_selects(ext, file_name)
            == filename_language(ascii_lower(file_name)),
{
}

/// The language selected by a file's extension (empty when it has none) or,
/// failing that, by its file name, without regard to ASCII case.
pub fn detect_language(ext: &str, file_name: &str) -> (r: Option<usize>)
    ensures
        r == name_selects(ext@, file_name@),
        r matches Some(id) ==> id < LANGUAGE_COUNT,
{
    match extension_id(&to_ascii_lower(&chars_of(ext))) {
        Some(l) => Some(l),
        None => filename_id(&to_ascii_lower(&chars_of(file_name))),
    }
}

/// What to do with a file found by the walk.
#[derive(Clone, Copy, PartialEq, Eq, Structural)]
pub enum FilePlan {
    /// Count it as this language.
    Count(usize),
    /// Read its first line and look for a shebang.
    ReadShebang,
    /// Leave it out.
    Skip,
}

/// The plan for a file with extension `ext` (if any) and name `file_name`:
/// count it when its name selects a language, read its shebang when it has no
/// extension, else leave it out.
pub fn plan_file(ext: Option<&str>, file_name: &str) -> (r: FilePlan)
    ensures
        r == match name_selects(
            match ext {
                Some(e) => e@,
                None => Seq::empty(),
            },
            file_name@,
        ) {
            Some(l) => FilePlan::Count(l),
            None => if ext is None {
                FilePlan::ReadShebang
            } else {
                FilePlan::Skip
            },
        },
{
    let e = match ext {
        Some(e) => e,
        None => "",
    };
    proof {
        reveal_strlit("");
        assert(""@ =~= Seq::<char>::empty());
    }
    match detect_language(e, file_name) {
        Some(l) => FilePlan::Count(l),
        None => match ext {
            None => FilePlan::ReadShebang,
            Some(_) => FilePlan::Skip,
        },
    }
}

/// The language a shebang first line (trailing whitespace and newline removed) selects.
pub fn first_line_language(line: &str) -> (r: Option<usize>)
    ensures
        r == shebang_language(line@.take(line@.len() - trailing_ws(line@))),
        r matches Some(id) ==> id < LANGUAGE_COUNT,
{
    shebang_id(&trim_end_chars(&chars_of(line)))
}

/// One of `names` equals the display name of language `lang` without regard
/// to ASCII case.
pub open spec fn names_language(names: Seq<Seq<char>>, lang: int) -> bool {
    exists|i: int|
        0 <= i < names.len() && ascii_lower(#[trigger] names[i]) == ascii_lower(names_table()[lang]@)
}

/// Whether language `lang` passes the types filter: there is no filter, or one
/// of its names is the language's display name.
pub open spec fn type_selected_spec(types: Option<Seq<Seq<char>>>, lang: int) -> bool {
    match types {
        None => true,
        Some(t) => names_language(t, lang),
    }
}

/// Whether language `lang` passes the types filter.
pub fn type_selected(types: &Option<Vec<String>>, lang: usize) -> (r: bool)
    requires
        lang < LANGUAGE_COUNT,
    ensures
        r == type_selected_spec(
            match types {
                Some(t) => Some(strings_view(t@)),
                None => None,
            },
            lang as int,
        ),
{
    match types {
        None => true,
        Some(t) => {
            let names = LanguageDef::all_names();
            let name = to_ascii_lower(&chars_of(names[lang]));
            let ghost tv = strings_view(t@);
            let mut i: usize = 0;
            while i < t.len()
                invariant
                    i <= t.len(),
                    tv == strings_view(t@),
                    *types == Some(*t),
                    lang < LANGUAGE_COUNT,
                    name@ == ascii_lower(names_table()[lang as int]@),
                    forall|k: int| 0 <= k < i ==> ascii_lower(#[trigger] tv[k]) != name@,
                decreases t.len() - i,
            {
                assert(tv[i as int] == t@[i as int]@);
                if chars_eq(&to_ascii_lower(&chars_of(t[i].as_str())), &name) {
                    assert(ascii_lower(tv[i as int]) == ascii_lower(names_table()[lang as int]@));
                    assert(names_language(tv, lang as int));
                    return true;
                }
                i += 1;
            }
            false
        },
    }
}

/// The statistics of one file of language `lang` with content `content`; a
/// notebook is counted from its cells by `count_notebook`.
pub fn count_content(lang: usize, content: &[u8]) -> (r: ThreadStats)
    requires
        lang < LANGUAGE_COUNT,
        content.len() <= MAX_CONTENT_LEN,
        language_view(lang as int).structured_format == StructuredFormat::Text,
    ensures
        stats_wf(r@),
        r@ == add_spec(
            empty_stats(),
            lang as int,
            (
                count_file_spec(content@, language_view(lang as int)).counts,
                count_file_spec(content@, language_view(lang as int)).children,
            ),
        ),
{
    let def = language(lang);
    proof {
        lemma_registry_prefixes(lang as int);
    }
    let result = count_file(content, &def);
    let mut stats = ThreadStats::new();
    proof {
        let s = empty_stats();
        let target = add_spec(s, lang as int, (result@.counts, result@.children));
        lemma_add_children_bounded(s.children, lang as int, result@.children);
        assert(grand_total(result@) <= 3 * content.len() + 1);
        assert forall|j: int| 0 <= j < target.children.len() implies crate::engine::stats::slot_fits(
            #[trigger] target.children[j],
        ) by {
            assert(slot_lines(target.children[j]) <= children_total(result@.children));
            assert(slot_files(target.children[j]) == 0);
        }
        assert(stats_fit(target));
    }
    stats.add(lang, result);
    stats
}

/// The statistics of one notebook file of language `lang`, counted from its
/// cells (`None` when the document is not a notebook).
pub fn count_notebook(lang: usize, notebook: Option<&JupyterNotebook>) -> (r: ThreadStats)
    requires
        lang < LANGUAGE_COUNT,
        notebook matches Some(nb) ==> cells_weight(nb.cells@) < u32::MAX,
    ensures
        stats_wf(r@),
        r@ == add_spec(
            empty_stats(),
            lang as int,
            (
                notebook_result(match notebook {
                    Some(nb) => Some(*nb),
                    None => None,
                }).counts,
                notebook_result(match notebook {
                    Some(nb) => Some(*nb),
                    None => None,
                }).children,
            ),
        ),
{
    let result = count_jupyter_cells(notebook);
    let mut stats = ThreadStats::new();
    proof {
        if notebook is None {
            assert(children_total(result@.children) == 0);
        }
        let s = empty_stats();
        let target = add_spec(s, lang as int, (result@.counts, result@.children));
        lemma_add_children_bounded(s.children, lang as int, result@.children);
        assert forall|j: int| 0 <= j < target.children.len() implies crate::engine::stats::slot_fits(
            #[trigger] target.children[j],
        ) by {
            assert(slot_lines(target.children[j]) <= children_total(result@.children));
            assert(slot_files(target.children[j]) == 0);
        }
        assert(stats_fit(target));
    }
    stats.add(lang, result);
    stats
}

} // verus!
