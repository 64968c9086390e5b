//! The summary of per-language totals reported by a whole-tree counter: a row
//! per language with code, then the `SUM` row.
use vstd::prelude::*;

use crate::engine::stats::EntryView;
use crate::engine::stats::LangEntry;
use crate::engine::stats::entry_totals;
use crate::engine::stats::totals_plus;
use crate::engine::stats::zero_totals;
use crate::engine::text::strings_view;
use crate::types::LangStats;
use crate::types::OutputStats;
use crate::types::RowView;
use crate::types::Totals;
use crate::types::child_rows_view;
use crate::types::rows_view;

verus! {

/// The values of named entries.
pub open spec fn named_entries_view(v: Seq<(String, LangEntry)>) -> Seq<(Seq<char>, EntryView)> {
    Seq::new(v.len(), |i: int| (v[i].0@, v[i].1@))
}

/// The rows of the languages with code among the first `n`, in order.
pub open spec fn summary_rows(langs: Seq<(Seq<char>, EntryView)>, n: nat) -> Seq<(Seq<char>, RowView)>
    decreases n,
{
    if n == 0 {
        Seq::empty()
    } else {
        let prev = summary_rows(langs, (n - 1) as nat);
        let e = langs[n - 1].1;
        if e.code > 0 {
            prev.push((langs[n - 1].0, RowView { totals: entry_totals(e, e.files), children: Seq::empty() }))
        } else {
            prev
        }
    }
}

/// The sum of the numbers of the languages with code among the first `n`.
pub open spec fn summary_total(langs: Seq<(Seq<char>, EntryView)>, n: nat) -> Totals
    decreases n,
{
    if n == 0 {
        zero_totals()
    } else {
        let prev = summary_total(langs, (n - 1) as nat);
        let e = langs[n - 1].1;
        if e.code > 0 {
            totals_plus(prev, entry_totals(e, e.files))
        } else {
            prev
        }
    }
}

proof fn lemma_summary_total(langs: Seq<(Seq<char>, EntryView)>, i: nat, n: nat)
    requires
        i <= n,
    ensures
        summary_total(langs, i).n_files <= summary_total(langs, n).n_files,
        summary_total(langs, i).lines <= summary_total(langs, n).lines,
        summary_total(langs, n).lines == summary_total(langs, n).blank + summary_total(
            langs,
            n,
        ).comment + summary_total(langs, n).code,
    decreases n,
{
    if n > 0 {
        if i < n {
            lemma_summary_total(langs, i, (n - 1) as nat);
        } else {
            lemma_summary_total(langs, (n - 1) as nat, (n - 1) as nat);
        }
    }
}

/// The output for per-language totals `langs`: a row per language with code,
/// in order, then the `SUM` row; the repository count and patterns as given.
pub fn summarize(langs: &Vec<(String, LangEntry)>, git_repo_count: usize, gitignore_patterns: Vec<String>) -> (r: OutputStats)
    requires
        summary_total(named_entries_view(langs@), langs@.len()).lines <= usize::MAX,
        summary_total(named_entries_view(langs@), langs@.len()).n_files <= usize::MAX,
    ensures
        rows_view(r.languages@) == summary_rows(named_entries_view(langs@), langs@.len()).push(
            ("SUM"@, RowView { totals: summary_total(named_entries_view(langs@), langs@.len()), children: Seq::empty() }),
        ),
        r.git_repos == git_repo_count,
        r.gitignore_patterns@ == gitignore_patterns@,
{
    let ghost lv = named_entries_view(langs@);
    let mut languages: Vec<(String, LangStats)> = Vec::new();
    let mut n_files: usize = 0;
    let mut lines: usize = 0;
    let mut blank: usize = 0;
    let mut comment: usize = 0;
    let mut code: usize = 0;
    let mut i: usize = 0;
    assert(rows_view(languages@) =~= summary_rows(lv, 0));
    while i < langs.len()
        invariant
            i <= langs.len(),
            lv == named_entries_view(langs@),
            summary_total(lv, langs@.len()).lines <= usize::MAX,
            summary_total(lv, langs@.len()).n_files <= usize::MAX,
            rows_view(languages@) == summary_rows(lv, i as nat),
            (Totals {
                n_files: n_files as nat,
                lines: lines as nat,
                blank: blank as nat,
                comment: comment as nat,
                code: code as nat,
            }) == summary_total(lv, i as nat),
        decreases langs.len() - i,
    {
        let e = langs[i].1;
        assert(lv[i as int].1 == e@);
        if e.code > 0 {
            proof {
                lemma_summary_total(lv, (i + 1) as nat, langs@.len());
                lemma_summary_total(lv, (i + 1) as nat, (i + 1) as nat);
            }
            n_files = n_files + e.files;
            lines = lines + (e.blank + e.comment + e.code);
            blank = blank + e.blank;
            comment = comment + e.comment;
            code = code + e.code;
            let row = LangStats {
                n_files: e.files,
                lines: e.blank + e.comment + e.code,
                blank: e.blank,
                comment: e.comment,
                code: e.code,
                children: Vec::new(),
            };
            let ghost before = languages@;
            languages.push((langs[i].0.clone(), row));
            assert(child_rows_view(row.children@) =~= Seq::<(Seq<char>, Totals, nat)>::empty());
            assert(rows_view(languages@) =~= rows_view(before).push(
                (lv[i as int].0, RowView { totals: entry_totals(e@, e@.files), children: Seq::empty() }),
            ));
        }
        i += 1;
    }
    let total = LangStats { n_files, lines, blank, comment, code, children: Vec::new() };
    languages.push(("SUM".to_owned(), total));
    assert(child_rows_view(total.children@) =~= Seq::<(Seq<char>, Totals, nat)>::empty());
    assert(rows_view(languages@) =~= summary_rows(lv, langs@.len()).push(
        ("SUM"@, RowView { totals: summary_total(lv, langs@.len()), children: Seq::empty() }),
    ));
    OutputStats { languages, git_repos: git_repo_count, gitignore_patterns }
}

} // verus!
