//! Aggregation of per-file results into per-language statistics.
use vstd::prelude::*;

use crate::engine::fsm::model::children_in_range;
use crate::engine::fsm::parser::helpers::children_view;
use crate::engine::fsm::types::Counts;
use crate::engine::fsm::types::children_total;
use crate::engine::fsm::types::children_sum;
use crate::engine::fsm::types::FileResult;
use crate::engine::fsm::types::LineCounts;
use crate::engine::language::LANGUAGE_COUNT;
use crate::engine::language::LanguageDef;
use crate::engine::language::names_table;
use crate::engine::text::sort_dedup;
use crate::engine::text::strictly_sorted;
use crate::engine::text::strings_view;
use crate::engine::text::lemma_sorted_unique;
use crate::types::LangStats;
use crate::types::OutputStats;
use crate::types::RowView;
use crate::types::Totals;
use crate::types::child_rows_view;
use crate::types::rows_view;

verus! {

/// Running totals of one language.
#[derive(Clone, Copy)]
pub struct LangEntry {
    pub files: usize,
    pub code: usize,
    pub comment: usize,
    pub blank: usize,
}

/// The mathematical value of a [`LangEntry`].
#[verifier::ext_equal]
pub struct EntryView {
    pub files: nat,
    pub code: nat,
    pub comment: nat,
    pub blank: nat,
}

impl View for LangEntry {
    type V = EntryView;

    open spec fn view(&self) -> EntryView {
        EntryView {
            files: self.files as nat,
            code: self.code as nat,
            comment: self.comment as nat,
            blank: self.blank as nat,
        }
    }
}

/// Statistics gathered by one worker: totals per language (indexed by language),
/// child blocks per parent and child language (at `parent * LANGUAGE_COUNT +
/// child`), git repositories and ignore patterns found.
pub struct ThreadStats {
    pub langs: Vec<LangEntry>,
    pub children: Vec<Option<LangEntry>>,
    pub git_repos: usize,
    pub gitignore_patterns: Vec<String>,
}

/// The mathematical value of a [`ThreadStats`].
#[verifier::ext_equal]
pub struct StatsView {
    pub langs: Seq<EntryView>,
    pub children: Seq<Option<EntryView>>,
    pub git_repos: nat,
    pub gitignore_patterns: Seq<Seq<char>>,
}

/// The value of an optional entry.
pub open spec fn slot_view(s: Option<LangEntry>) -> Option<EntryView> {
    match s {
        Some(e) => Some(e@),
        None => None,
    }
}

/// The values of a list of entries.
pub open spec fn entries_view(v: Seq<LangEntry>) -> Seq<EntryView> {
    Seq::new(v.len(), |i: int| v[i]@)
}

/// The values of a list of optional entries.
pub open spec fn slots_view(v: Seq<Option<LangEntry>>) -> Seq<Option<EntryView>> {
    Seq::new(v.len(), |i: int| slot_view(v[i]))
}

impl View for ThreadStats {
    type V = StatsView;

    open spec fn view(&self) -> StatsView {
        StatsView {
            langs: entries_view(self.langs@),
            children: slots_view(self.children@),
            git_repos: self.git_repos as nat,
            gitignore_patterns: strings_view(self.gitignore_patterns@),
        }
    }
}

/// Nothing counted.
pub open spec fn zero_entry() -> EntryView {
    EntryView { files: 0, code: 0, comment: 0, blank: 0 }
}

/// The statistics of a worker that has counted nothing.
pub open spec fn empty_stats() -> StatsView {
    StatsView {
        langs: Seq::new(LANGUAGE_COUNT as nat, |i: int| zero_entry()),
        children: Seq::new((LANGUAGE_COUNT * LANGUAGE_COUNT) as nat, |i: int| None::<EntryView>),
        git_repos: 0,
        gitignore_patterns: Seq::empty(),
    }
}

/// `e` with `files` more files and the lines of `c`.
pub open spec fn entry_plus(e: EntryView, files: nat, c: Counts) -> EntryView {
    EntryView {
        files: e.files + files,
        code: e.code + c.code,
        comment: e.comment + c.comment,
        blank: e.blank + c.blank,
    }
}

/// Field-wise sum of two entries.
pub open spec fn entry_sum(a: EntryView, b: EntryView) -> EntryView {
    EntryView {
        files: a.files + b.files,
        code: a.code + b.code,
        comment: a.comment + b.comment,
        blank: a.blank + b.blank,
    }
}

/// A child slot with the lines of `c` added (created when absent).
pub open spec fn slot_plus(s: Option<EntryView>, c: Counts) -> Option<EntryView> {
    match s {
        Some(e) => Some(entry_plus(e, 0, c)),
        None => Some(entry_plus(zero_entry(), 0, c)),
    }
}

/// Child slots of parent `lang` after adding the child blocks of one file.
pub open spec fn add_children_spec(
    slots: Seq<Option<EntryView>>,
    lang: int,
    children: Seq<(usize, Counts)>,
) -> Seq<Option<EntryView>>
    decreases children.len(),
{
    if children.len() == 0 {
        slots
    } else {
        let prev = add_children_spec(slots, lang, children.drop_last());
        let k = lang * LANGUAGE_COUNT + children.last().0;
        prev.update(k, slot_plus(prev[k], children.last().1))
    }
}

/// The statistics after adding one file of language `lang`.
pub open spec fn add_spec(s: StatsView, lang: int, r: (Counts, Seq<(usize, Counts)>)) -> StatsView {
    StatsView {
        langs: s.langs.update(lang, entry_plus(s.langs[lang], 1, r.0)),
        children: add_children_spec(s.children, lang, r.1),
        ..s
    }
}

/// Two child slots combined.
pub open spec fn slot_sum(a: Option<EntryView>, b: Option<EntryView>) -> Option<EntryView> {
    match (a, b) {
        (Some(x), Some(y)) => Some(entry_sum(x, y)),
        (Some(x), None) => Some(x),
        (None, Some(y)) => Some(y),
        (None, None) => None,
    }
}

/// The statistics of two workers combined.
pub open spec fn merge_spec(a: StatsView, b: StatsView) -> StatsView {
    StatsView {
        langs: Seq::new(a.langs.len(), |i: int| entry_sum(a.langs[i], b.langs[i])),
        children: Seq::new(a.children.len(), |i: int| slot_sum(a.children[i], b.children[i])),
        git_repos: a.git_repos + b.git_repos,
        gitignore_patterns: a.gitignore_patterns + b.gitignore_patterns,
    }
}

/// Whether a language has any line counted and so gets a row of the output.
pub open spec fn included(e: EntryView) -> bool {
    e.code > 0 || e.comment > 0 || e.blank > 0
}

/// The numbers of a row made from an entry, with `files` files.
pub open spec fn entry_totals(e: EntryView, files: nat) -> Totals {
    Totals { n_files: files, lines: e.blank + e.comment + e.code, blank: e.blank, comment: e.comment, code: e.code }
}

/// No numbers at all.
pub open spec fn zero_totals() -> Totals {
    Totals { n_files: 0, lines: 0, blank: 0, comment: 0, code: 0 }
}

/// Field-wise sum of the numbers of two rows.
pub open spec fn totals_plus(a: Totals, b: Totals) -> Totals {
    Totals {
        n_files: a.n_files + b.n_files,
        lines: a.lines + b.lines,
        blank: a.blank + b.blank,
        comment: a.comment + b.comment,
        code: a.code + b.code,
    }
}

/// The display name of language `id`.
pub open spec fn language_name(id: int) -> Seq<char> {
    names_table()[id]@
}

/// The nested rows of parent `parent` for the child languages below `n`, in
/// language order: one per child language seen inside the parent.
pub open spec fn child_rows(s: StatsView, parent: int, n: nat) -> Seq<(Seq<char>, Totals, nat)>
    decreases n,
{
    if n == 0 {
        Seq::empty()
    } else {
        let prev = child_rows(s, parent, (n - 1) as nat);
        match s.children[parent * LANGUAGE_COUNT + n - 1] {
            Some(e) => prev.push((language_name(n - 1), entry_totals(e, 0), 0nat)),
            None => prev,
        }
    }
}

/// The row of language `id`.
pub open spec fn language_row(s: StatsView, id: int) -> (Seq<char>, RowView) {
    (
        language_name(id),
        RowView {
            totals: entry_totals(s.langs[id], s.langs[id].files),
            children: child_rows(s, id, LANGUAGE_COUNT as nat),
        },
    )
}

/// The rows of the languages below `n` that have lines, in language order.
pub open spec fn language_rows(s: StatsView, n: nat) -> Seq<(Seq<char>, RowView)>
    decreases n,
{
    if n == 0 {
        Seq::empty()
    } else {
        let prev = language_rows(s, (n - 1) as nat);
        if included(s.langs[n - 1]) {
            prev.push(language_row(s, n - 1))
        } else {
            prev
        }
    }
}

/// The numbers of the child blocks of parent `parent` in child languages
/// below `n`, summed (child blocks have no files of their own).
pub open spec fn child_totals(s: StatsView, parent: int, n: nat) -> Totals
    decreases n,
{
    if n == 0 {
        zero_totals()
    } else {
        let prev = child_totals(s, parent, (n - 1) as nat);
        match s.children[parent * LANGUAGE_COUNT + n - 1] {
            Some(e) => totals_plus(prev, entry_totals(e, 0)),
            None => prev,
        }
    }
}

/// The numbers of language `id` with those of its child blocks.
pub open spec fn language_total(s: StatsView, id: int) -> Totals {
    totals_plus(
        entry_totals(s.langs[id], s.langs[id].files),
        child_totals(s, id, LANGUAGE_COUNT as nat),
    )
}

/// The sum of the numbers of the languages below `n` that have lines, each
/// with the child blocks embedded in its files.
pub open spec fn sum_totals(s: StatsView, n: nat) -> Totals
    decreases n,
{
    if n == 0 {
        zero_totals()
    } else {
        let prev = sum_totals(s, (n - 1) as nat);
        if included(s.langs[n - 1]) {
            totals_plus(prev, language_total(s, n - 1))
        } else {
            prev
        }
    }
}

/// The rows of the output: one per language with lines, then the `SUM` row.
pub open spec fn output_rows(s: StatsView) -> Seq<(Seq<char>, RowView)> {
    language_rows(s, LANGUAGE_COUNT as nat).push(
        ("SUM"@, RowView { totals: sum_totals(s, LANGUAGE_COUNT as nat), children: Seq::empty() }),
    )
}

/// The numbers of the output fit in a `usize`.
pub open spec fn output_fits(s: StatsView) -> bool {
    &&& sum_totals(s, LANGUAGE_COUNT as nat).lines <= usize::MAX
    &&& sum_totals(s, LANGUAGE_COUNT as nat).n_files <= usize::MAX
    &&& forall|k: int|
        0 <= k < s.children.len() ==> match #[trigger] s.children[k] {
            Some(e) => e.blank + e.comment + e.code <= usize::MAX,
            None => true,
        }
}

/// Every value fits in a `usize`.
pub open spec fn entry_fits(e: EntryView) -> bool {
    e.files <= usize::MAX && e.code <= usize::MAX && e.comment <= usize::MAX && e.blank
        <= usize::MAX
}

/// Every value of a slot fits in a `usize`.
pub open spec fn slot_fits(s: Option<EntryView>) -> bool {
    match s {
        Some(e) => entry_fits(e),
        None => true,
    }
}

/// Every value of the statistics fits in a `usize`.
pub open spec fn stats_fit(s: StatsView) -> bool {
    &&& forall|i: int| 0 <= i < s.langs.len() ==> entry_fits(#[trigger] s.langs[i])
    &&& forall|i: int| 0 <= i < s.children.len() ==> slot_fits(#[trigger] s.children[i])
    &&& s.git_repos <= usize::MAX
}

/// The statistics have a slot for every language and every pair of languages.
pub open spec fn stats_wf(s: StatsView) -> bool {
    s.langs.len() == LANGUAGE_COUNT && s.children.len() == LANGUAGE_COUNT * LANGUAGE_COUNT
}

impl ThreadStats {
    /// Nothing counted yet.
    pub fn new() -> (r: Self)
        ensures
            r@ == empty_stats(),
            stats_wf(r@),
    {
        let mut langs: Vec<LangEntry> = Vec::new();
        let mut i: usize = 0;
        while i < LANGUAGE_COUNT
            invariant
                i <= LANGUAGE_COUNT,
                langs.len() == i,
                forall|k: int| 0 <= k < i ==> #[trigger] langs@[k]@ == zero_entry(),
            decreases LANGUAGE_COUNT - i,
        {
            langs.push(LangEntry { files: 0, code: 0, comment: 0, blank: 0 });
            i += 1;
        }
        let mut children: Vec<Option<LangEntry>> = Vec::new();
        let mut k: usize = 0;
        while k < LANGUAGE_COUNT * LANGUAGE_COUNT
            invariant
                k <= LANGUAGE_COUNT * LANGUAGE_COUNT,
                children.len() == k,
                forall|j: int| 0 <= j < k ==> #[trigger] children@[j] == None::<LangEntry>,
            decreases LANGUAGE_COUNT * LANGUAGE_COUNT - k,
        {
            children.push(None);
            k += 1;
        }
        let r = ThreadStats { langs, children, git_repos: 0, gitignore_patterns: Vec::new() };
        assert(r@.langs =~= Seq::new(LANGUAGE_COUNT as nat, |i: int| zero_entry()));
        assert(r@.children =~= Seq::new(
            (LANGUAGE_COUNT * LANGUAGE_COUNT) as nat,
            |i: int| None::<EntryView>,
        ));
        assert(r@.gitignore_patterns =~= Seq::<Seq<char>>::empty());
        assert(r@ =~= empty_stats());
        r
    }

    /// Add the result of counting one file of language `lang`.
    pub fn add(&mut self, lang: usize, result: FileResult)
        requires
            stats_wf(old(self)@),
            lang < LANGUAGE_COUNT,
            children_in_range(result@.children),
            stats_fit(add_spec(old(self)@, lang as int, (result@.counts, result@.children))),
        ensures
            final(self)@ == add_spec(old(self)@, lang as int, (result@.counts, result@.children)),
            stats_wf(final(self)@),
    {
        let ghost target = add_spec(self@, lang as int, (result@.counts, result@.children));
        let e = self.langs[lang];
        assert(target.langs[lang as int] == entry_plus(e@, 1, result@.counts));
        assert(entry_fits(target.langs[lang as int]));
        let updated = LangEntry {
            files: e.files + 1,
            code: e.code + result.counts.code as usize,
            comment: e.comment + result.counts.comment as usize,
            blank: e.blank + result.counts.blank as usize,
        };
        self.langs.set(lang, updated);
        assert(self@.langs =~= target.langs);
        let ghost slots0 = self@.children;
        let ghost ch = result@.children;
        proof {
            lemma_add_children_len(slots0, lang as int, ch);
        }
        let mut i: usize = 0;
        assert(ch.take(0) =~= Seq::<(usize, Counts)>::empty());
        while i < result.children.len()
            invariant
                i <= result.children.len(),
                ch == result@.children,
                ch.len() == result.children.len(),
                children_in_range(ch),
                lang < LANGUAGE_COUNT,
                self@.langs == target.langs,
                self@.git_repos == target.git_repos,
                self@.gitignore_patterns == target.gitignore_patterns,
                self.children.len() == LANGUAGE_COUNT * LANGUAGE_COUNT,
                self@.children == add_children_spec(slots0, lang as int, ch.take(i as int)),
                target.children == add_children_spec(slots0, lang as int, ch),
                stats_fit(target),
                slots0.len() == LANGUAGE_COUNT * LANGUAGE_COUNT,
                target.children.len() == LANGUAGE_COUNT * LANGUAGE_COUNT,
            decreases result.children.len() - i,
        {
            let (child, c) = result.children[i];
            assert(ch[i as int] == (child, c@));
            assert(ch[i as int].0 < LANGUAGE_COUNT);
            let k = lang * LANGUAGE_COUNT + child;
            assert(ch.take(i + 1).drop_last() =~= ch.take(i as int));
            proof {
                lemma_add_children_fits(slots0, lang as int, ch, i as int + 1);
            }
            let ghost after = add_children_spec(slots0, lang as int, ch.take(i + 1));
            assert(after == self@.children.update(k as int, slot_plus(self@.children[k as int], c@)));
            assert(slot_fits(after[k as int]));
            let slot = self.children[k];
            let base = match slot {
                Some(b) => b,
                None => LangEntry { files: 0, code: 0, comment: 0, blank: 0 },
            };
            let next = LangEntry {
                files: base.files,
                code: base.code + c.code as usize,
                comment: base.comment + c.comment as usize,
                blank: base.blank + c.blank as usize,
            };
            self.children.set(k, Some(next));
            assert(self@.children =~= after);
            i += 1;
        }
        assert(ch.take(i as int) =~= ch);
    }

    /// Combine the statistics of another worker into these.
    pub fn merge(&mut self, other: ThreadStats)
        requires
            stats_wf(old(self)@),
            stats_wf(other@),
            stats_fit(merge_spec(old(self)@, other@)),
        ensures
            final(self)@ == merge_spec(old(self)@, other@),
            stats_wf(final(self)@),
    {
        let ghost target = merge_spec(self@, other@);
        let mut i: usize = 0;
        while i < LANGUAGE_COUNT
            invariant
                i <= LANGUAGE_COUNT,
                stats_wf(other@),
                stats_wf(old(self)@),
                self.langs.len() == LANGUAGE_COUNT,
                stats_fit(target),
                target == merge_spec(old(self)@, other@),
                forall|k: int| 0 <= k < i ==> #[trigger] self.langs@[k]@ == target.langs[k],
                forall|k: int|
                    i <= k < LANGUAGE_COUNT ==> #[trigger] self.langs@[k] == old(self).langs@[k],
                self.children@ == old(self).children@,
                self.git_repos == old(self).git_repos,
                self.gitignore_patterns@ == old(self).gitignore_patterns@,
            decreases LANGUAGE_COUNT - i,
        {
            let a = self.langs[i];
            let b = other.langs[i];
            assert(target.langs[i as int] == entry_sum(a@, b@));
            assert(entry_fits(target.langs[i as int]));
            self.langs.set(
                i,
                LangEntry {
                    files: a.files + b.files,
                    code: a.code + b.code,
                    comment: a.comment + b.comment,
                    blank: a.blank + b.blank,
                },
            );
            i += 1;
        }
        let mut k: usize = 0;
        while k < LANGUAGE_COUNT * LANGUAGE_COUNT
            invariant
                k <= LANGUAGE_COUNT * LANGUAGE_COUNT,
                stats_wf(other@),
                stats_wf(old(self)@),
                self.children.len() == LANGUAGE_COUNT * LANGUAGE_COUNT,
                stats_fit(target),
                target == merge_spec(old(self)@, other@),
                self@.langs =~= target.langs,
                forall|j: int| 0 <= j < k ==> #[trigger] slot_view(self.children@[j]) == target.children[j],
                forall|j: int|
                    k <= j < LANGUAGE_COUNT * LANGUAGE_COUNT ==> #[trigger] self.children@[j]
                        == old(self).children@[j],
                self.git_repos == old(self).git_repos,
                self.gitignore_patterns@ == old(self).gitignore_patterns@,
            decreases LANGUAGE_COUNT * LANGUAGE_COUNT - k,
        {
            let a = self.children[k];
            let b = other.children[k];
            assert(target.children[k as int] == slot_sum(slot_view(a), slot_view(b)));
            assert(slot_fits(target.children[k as int]));
            let sum = match (a, b) {
                (Some(x), Some(y)) => Some(
                    LangEntry {
                        files: x.files + y.files,
                        code: x.code + y.code,
                        comment: x.comment + y.comment,
                        blank: x.blank + y.blank,
                    },
                ),
                (Some(x), None) => Some(x),
                (None, Some(y)) => Some(y),
                (None, None) => None,
            };
            self.children.set(k, sum);
            k += 1;
        }
        self.git_repos = self.git_repos + other.git_repos;
        let mut patterns = other.gitignore_patterns;
        self.gitignore_patterns.append(&mut patterns);
        assert(self@.children =~= target.children);
        assert(self@.gitignore_patterns =~= target.gitignore_patterns);
    }

    /// Whether merging `other` into these statistics keeps every number
    /// within a `usize`.
    pub fn can_merge(&self, other: &ThreadStats) -> (r: bool)
        requires
            stats_wf(self@),
            stats_wf(other@),
        ensures
            r == stats_fit(merge_spec(self@, other@)),
    {
        let ghost target = merge_spec(self@, other@);
        if self.git_repos > usize::MAX - other.git_repos {
            return false;
        }
        let mut i: usize = 0;
        while i < LANGUAGE_COUNT
            invariant
                i <= LANGUAGE_COUNT,
                stats_wf(self@),
                stats_wf(other@),
                target == merge_spec(self@, other@),
                forall|k: int| 0 <= k < i ==> entry_fits(#[trigger] target.langs[k]),
            decreases LANGUAGE_COUNT - i,
        {
            let a = self.langs[i];
            let b = other.langs[i];
            assert(target.langs[i as int] == entry_sum(a@, b@));
            if a.files > usize::MAX - b.files || a.code > usize::MAX - b.code || a.comment
                > usize::MAX - b.comment || a.blank > usize::MAX - b.blank {
                return false;
            }
            i += 1;
        }
        let mut k: usize = 0;
        while k < LANGUAGE_COUNT * LANGUAGE_COUNT
            invariant
                k <= LANGUAGE_COUNT * LANGUAGE_COUNT,
                stats_wf(self@),
                stats_wf(other@),
                target == merge_spec(self@, other@),
                forall|j: int| 0 <= j < LANGUAGE_COUNT ==> entry_fits(#[trigger] target.langs[j]),
                forall|j: int| 0 <= j < k ==> slot_fits(#[trigger] target.children[j]),
                target.git_repos <= usize::MAX,
            decreases LANGUAGE_COUNT * LANGUAGE_COUNT - k,
        {
            let a = self.children[k];
            let b = other.children[k];
            assert(target.children[k as int] == slot_sum(slot_view(a), slot_view(b)));
            match (a, b) {
                (Some(x), Some(y)) => {
                    if x.files > usize::MAX - y.files || x.code > usize::MAX - y.code || x.comment
                        > usize::MAX - y.comment || x.blank > usize::MAX - y.blank {
                        return false;
                    }
                },
                _ => {},
            }
            k += 1;
        }
        true
    }

    /// Whether the output of these statistics has every number within a
    /// `usize`.
    pub fn can_output(&self) -> (r: bool)
        requires
            stats_wf(self@),
        ensures
            r == output_fits(self@),
    {
        let mut n_files: u128 = 0;
        let mut lines: u128 = 0;
        let mut id: usize = 0;
        while id < LANGUAGE_COUNT
            invariant
                id <= LANGUAGE_COUNT,
                stats_wf(self@),
                n_files == sum_totals(self@, id as nat).n_files,
                lines == sum_totals(self@, id as nat).lines,
                n_files <= id as int * 0x1_0000_0000_0000_0000,
                lines <= id as int * ((LANGUAGE_COUNT + 1) * 0x4_0000_0000_0000_0000),
            decreases LANGUAGE_COUNT - id,
        {
            let e = self.langs[id];
            assert(self@.langs[id as int] == e@);
            proof {
                lemma_child_totals(self@, id as int, LANGUAGE_COUNT as nat, LANGUAGE_COUNT as nat);
            }
            assert(id as int * ((LANGUAGE_COUNT + 1) * 0x4_0000_0000_0000_0000) <= LANGUAGE_COUNT * ((
            LANGUAGE_COUNT + 1) * 0x4_0000_0000_0000_0000)) by (nonlinear_arith)
                requires
                    id < LANGUAGE_COUNT,
            ;
            assert(id as int * 0x1_0000_0000_0000_0000 <= LANGUAGE_COUNT * 0x1_0000_0000_0000_0000) by (nonlinear_arith)
                requires
                    id < LANGUAGE_COUNT,
            ;
            assert((id + 1) as int * ((LANGUAGE_COUNT + 1) * 0x4_0000_0000_0000_0000) == id as int * ((
            LANGUAGE_COUNT + 1) * 0x4_0000_0000_0000_0000) + (LANGUAGE_COUNT + 1) * 0x4_0000_0000_0000_0000) by (nonlinear_arith);
            assert((id + 1) as int * 0x1_0000_0000_0000_0000 == id as int * 0x1_0000_0000_0000_0000 + 0x1_0000_0000_0000_0000) by (nonlinear_arith);
            if e.code > 0 || e.comment > 0 || e.blank > 0 {
                let cl = self.child_lines(id);
                n_files = n_files + e.files as u128;
                lines = lines + e.blank as u128 + e.comment as u128 + e.code as u128 + cl;
            }
            id += 1;
        }
        if n_files > usize::MAX as u128 || lines > usize::MAX as u128 {
            return false;
        }
        let mut k: usize = 0;
        while k < LANGUAGE_COUNT * LANGUAGE_COUNT
            invariant
                k <= LANGUAGE_COUNT * LANGUAGE_COUNT,
                stats_wf(self@),
                forall|j: int|
                    0 <= j < k ==> match #[trigger] self@.children[j] {
                        Some(e) => e.blank + e.comment + e.code <= usize::MAX,
                        None => true,
                    },
            decreases LANGUAGE_COUNT * LANGUAGE_COUNT - k,
        {
            assert(self@.children[k as int] == slot_view(self.children@[k as int]));
            match self.children[k] {
                Some(e) => {
                    if e.blank > usize::MAX - e.comment || e.code > usize::MAX - e.comment
                        - e.blank {
                        return false;
                    }
                },
                None => {},
            }
            k += 1;
        }
        true
    }

    /// The lines of the child blocks of language `parent`.
    fn child_lines(&self, parent: usize) -> (r: u128)
        requires
            stats_wf(self@),
            parent < LANGUAGE_COUNT,
        ensures
            r == child_totals(self@, parent as int, LANGUAGE_COUNT as nat).lines,
            r <= LANGUAGE_COUNT * 0x4_0000_0000_0000_0000,
    {
        let mut acc: u128 = 0;
        let mut c: usize = 0;
        while c < LANGUAGE_COUNT
            invariant
                c <= LANGUAGE_COUNT,
                parent < LANGUAGE_COUNT,
                stats_wf(self@),
                acc == child_totals(self@, parent as int, c as nat).lines,
                acc <= c as int * 0x4_0000_0000_0000_0000,
            decreases LANGUAGE_COUNT - c,
        {
            let k = parent * LANGUAGE_COUNT + c;
            assert(self@.children[k as int] == slot_view(self.children@[k as int]));
            match self.children[k] {
                Some(e) => {
                    acc = acc + e.blank as u128 + e.comment as u128 + e.code as u128;
                },
                None => {},
            }
            c += 1;
        }
        acc
    }

    /// The rows nested under language `parent`: one per child language seen
    /// inside its files, in language order, with no files of their own.
    fn child_stats(&self, parent: usize, names: &Vec<&'static str>) -> (r: (Vec<(String, LangStats)>, LangEntry))
        requires
            stats_wf(self@),
            parent < LANGUAGE_COUNT,
            names@ == names_table(),
            output_fits(self@),
            child_totals(self@, parent as int, LANGUAGE_COUNT as nat).lines <= usize::MAX,
        ensures
            child_rows_view(r.0@) == child_rows(self@, parent as int, LANGUAGE_COUNT as nat),
            entry_totals(r.1@, 0) == child_totals(self@, parent as int, LANGUAGE_COUNT as nat),
    {
        let mut out: Vec<(String, LangStats)> = Vec::new();
        let mut blank: usize = 0;
        let mut comment: usize = 0;
        let mut code: usize = 0;
        let mut c: usize = 0;
        assert(child_rows_view(out@) =~= child_rows(self@, parent as int, 0));
        while c < LANGUAGE_COUNT
            invariant
                c <= LANGUAGE_COUNT,
                parent < LANGUAGE_COUNT,
                stats_wf(self@),
                names@ == names_table(),
                output_fits(self@),
                child_totals(self@, parent as int, LANGUAGE_COUNT as nat).lines <= usize::MAX,
                child_rows_view(out@) == child_rows(self@, parent as int, c as nat),
                entry_totals(
                    EntryView { files: 0, code: code as nat, comment: comment as nat, blank: blank as nat },
                    0,
                ) == child_totals(self@, parent as int, c as nat),
            decreases LANGUAGE_COUNT - c,
        {
            proof {
                lemma_child_totals(self@, parent as int, (c + 1) as nat, LANGUAGE_COUNT as nat);
                lemma_child_totals(self@, parent as int, (c + 1) as nat, (c + 1) as nat);
            }
            let k = parent * LANGUAGE_COUNT + c;
            assert(self@.children[k as int] == slot_view(self.children@[k as int]));
            match self.children[k] {
                Some(e) => {
                    assert(self@.children[k as int] == Some(e@));
                    let row = LangStats {
                        n_files: 0,
                        lines: e.blank + e.comment + e.code,
                        blank: e.blank,
                        comment: e.comment,
                        code: e.code,
                        children: Vec::new(),
                    };
                    let ghost before = out@;
                    out.push((names[c].to_owned(), row));
                    assert(child_rows_view(out@) =~= child_rows_view(before).push(
                        (language_name(c as int), entry_totals(e@, 0), 0nat),
                    ));
                    blank = blank + e.blank;
                    comment = comment + e.comment;
                    code = code + e.code;
                },
                None => {},
            }
            c += 1;
        }
        (out, LangEntry { files: 0, code, comment, blank })
    }

    /// The output of a run: a row per language with lines (with its nested
    /// child rows), the `SUM` row of totals, and the ignore patterns sorted
    /// without repeats.
    pub fn into_output(self) -> (r: OutputStats)
        requires
            stats_wf(self@),
            output_fits(self@),
        ensures
            rows_view(r.languages@) == output_rows(self@),
            r.git_repos == self.git_repos,
            strictly_sorted(strings_view(r.gitignore_patterns@)),
            strings_view(r.gitignore_patterns@).to_set() == self@.gitignore_patterns.to_set(),
    {
        let names = LanguageDef::all_names();
        let mut languages: Vec<(String, LangStats)> = Vec::new();
        let mut n_files: usize = 0;
        let mut lines: usize = 0;
        let mut blank: usize = 0;
        let mut comment: usize = 0;
        let mut code: usize = 0;
        let mut id: usize = 0;
        assert(rows_view(languages@) =~= language_rows(self@, 0));
        while id < LANGUAGE_COUNT
            invariant
                id <= LANGUAGE_COUNT,
                stats_wf(self@),
                output_fits(self@),
                names@ == names_table(),
                rows_view(languages@) == language_rows(self@, id as nat),
                (Totals {
                    n_files: n_files as nat,
                    lines: lines as nat,
                    blank: blank as nat,
                    comment: comment as nat,
                    code: code as nat,
                }) == sum_totals(self@, id as nat),
            decreases LANGUAGE_COUNT - id,
        {
            let e = self.langs[id];
            assert(self@.langs[id as int] == e@);
            if e.code > 0 || e.comment > 0 || e.blank > 0 {
                proof {
                    lemma_sum_monotone(self@, (id + 1) as nat, LANGUAGE_COUNT as nat);
                    lemma_sum_monotone(self@, (id + 1) as nat, (id + 1) as nat);
                }
                proof {
                    lemma_child_totals(self@, id as int, LANGUAGE_COUNT as nat, LANGUAGE_COUNT as nat);
                }
                let (children, ct) = self.child_stats(id, &names);
                n_files = n_files + e.files;
                lines = lines + (e.blank + e.comment + e.code) + (ct.blank + ct.comment + ct.code);
                blank = blank + e.blank + ct.blank;
                comment = comment + e.comment + ct.comment;
                code = code + e.code + ct.code;
                let row = LangStats {
                    n_files: e.files,
                    lines: e.blank + e.comment + e.code,
                    blank: e.blank,
                    comment: e.comment,
                    code: e.code,
                    children,
                };
                let ghost before = languages@;
                languages.push((names[id].to_owned(), row));
                assert(rows_view(languages@) =~= rows_view(before).push(language_row(self@, id as int)));
            }
            id += 1;
        }
        let total = LangStats { n_files, lines, blank, comment, code, children: Vec::new() };
        let ghost before = languages@;
        languages.push(("SUM".to_owned(), total));
        assert(child_rows_view(total.children@) =~= Seq::<(Seq<char>, Totals, nat)>::empty());
        assert(rows_view(languages@) =~= output_rows(self@));
        let patterns = sort_dedup(self.gitignore_patterns);
        OutputStats { languages, git_repos: self.git_repos, gitignore_patterns: patterns }
    }
}

/// The numbers of a list of rows, summed field by field.
pub open spec fn rows_sum(rows: Seq<(Seq<char>, RowView)>) -> Totals
    decreases rows.len(),
{
    if rows.len() == 0 {
        zero_totals()
    } else {
        totals_plus(
            rows_sum(rows.drop_last()),
            totals_plus(rows.last().1.totals, nested_sum(rows.last().1.children)),
        )
    }
}

/// The numbers of a list of nested rows, summed field by field.
pub open spec fn nested_sum(rows: Seq<(Seq<char>, Totals, nat)>) -> Totals
    decreases rows.len(),
{
    if rows.len() == 0 {
        zero_totals()
    } else {
        totals_plus(nested_sum(rows.drop_last()), rows.last().1)
    }
}

proof fn lemma_nested_sum(s: StatsView, parent: int, n: nat)
    ensures
        nested_sum(child_rows(s, parent, n)) == child_totals(s, parent, n),
    decreases n,
{
    if n > 0 {
        lemma_nested_sum(s, parent, (n - 1) as nat);
        let prev = child_rows(s, parent, (n - 1) as nat);
        match s.children[parent * LANGUAGE_COUNT + n - 1] {
            Some(e) => {
                assert(prev.push((language_name(n - 1), entry_totals(e, 0), 0nat)).drop_last() =~= prev);
            },
            None => {},
        }
    }
}

proof fn lemma_language_rows_sum(s: StatsView, n: nat)
    ensures
        rows_sum(language_rows(s, n)) == sum_totals(s, n),
    decreases n,
{
    if n > 0 {
        lemma_language_rows_sum(s, (n - 1) as nat);
        let prev = language_rows(s, (n - 1) as nat);
        if included(s.langs[n - 1]) {
            lemma_nested_sum(s, n - 1, LANGUAGE_COUNT as nat);
            assert(prev.push(language_row(s, n - 1)).drop_last() =~= prev);
        }
    }
}

/// Law: the last row of the output is `SUM`, and each of its numbers (files,
/// lines, blank, comment, code) is the sum of that number over all the other
/// rows and the child rows nested in them: the totals of every file with the
/// child blocks embedded in it.
pub proof fn lemma_sum_row_is_total(s: StatsView)
    ensures
        output_rows(s).last().0 == "SUM"@,
        output_rows(s).last().1.totals == rows_sum(output_rows(s).drop_last()),
{
    lemma_language_rows_sum(s, LANGUAGE_COUNT as nat);
    assert(output_rows(s).drop_last() =~= language_rows(s, LANGUAGE_COUNT as nat));
}

/// `r` is the row of a language below `n` that has lines.
pub open spec fn counted_row(s: StatsView, r: (Seq<char>, RowView), n: nat) -> bool {
    exists|id: int| 0 <= id < n && included(s.langs[id]) && r == #[trigger] language_row(s, id)
}

/// The row of language `id` is among `rows`.
pub open spec fn has_row(rows: Seq<(Seq<char>, RowView)>, s: StatsView, id: int) -> bool {
    exists|i: int| 0 <= i < rows.len() && #[trigger] rows[i] == language_row(s, id)
}

/// Law: the rows of the output before `SUM` are exactly the rows of the
/// languages that have lines: each such row belongs to a language with
/// lines, and each language with lines has its row.
pub proof fn lemma_rows_are_counted_languages(s: StatsView, n: nat)
    ensures
        forall|i: int|
            0 <= i < language_rows(s, n).len() ==> counted_row(s, #[trigger] language_rows(s, n)[i], n),
        forall|id: int|
            0 <= id < n && included(s.langs[id]) ==> #[trigger] has_row(language_rows(s, n), s, id),
    decreases n,
{
    if n > 0 {
        lemma_rows_are_counted_languages(s, (n - 1) as nat);
        let prev = language_rows(s, (n - 1) as nat);
        let cur = language_rows(s, n);
        assert forall|i: int| 0 <= i < cur.len() implies counted_row(s, #[trigger] cur[i], n) by {
            if i < prev.len() {
                assert(cur[i] == prev[i]);
                assert(counted_row(s, prev[i], (n - 1) as nat));
                let id = choose|id: int|
                    0 <= id < n - 1 && included(s.langs[id]) && prev[i] == #[trigger] language_row(s, id);
                assert(0 <= id < n && included(s.langs[id]) && cur[i] == language_row(s, id));
            } else {
                assert(cur[i] == language_row(s, n - 1));
            }
        }
        assert forall|id: int| 0 <= id < n && included(s.langs[id]) implies #[trigger] has_row(cur, s, id) by {
            if id < n - 1 {
                assert(has_row(prev, s, id));
                let i = choose|i: int| 0 <= i < prev.len() && #[trigger] prev[i] == language_row(s, id);
                assert(cur[i] == prev[i]);
            } else {
                assert(cur[prev.len() as int] == language_row(s, id));
            }
        }
    }
}

/// A row whose lines are its blank, comment and code lines, and whose nested
/// rows are likewise, have no files and nest nothing.
pub open spec fn row_consistent(r: RowView) -> bool {
    &&& r.totals.lines == r.totals.blank + r.totals.comment + r.totals.code
    &&& forall|j: int|
        0 <= j < r.children.len() ==> {
            let c = #[trigger] r.children[j];
            &&& c.1.lines == c.1.blank + c.1.comment + c.1.code
            &&& c.1.n_files == 0
            &&& c.2 == 0
        }
}

proof fn lemma_child_rows_consistent(s: StatsView, parent: int, n: nat)
    ensures
        forall|j: int|
            0 <= j < child_rows(s, parent, n).len() ==> {
                let c = #[trigger] child_rows(s, parent, n)[j];
                &&& c.1.lines == c.1.blank + c.1.comment + c.1.code
                &&& c.1.n_files == 0
                &&& c.2 == 0
            },
    decreases n,
{
    if n > 0 {
        lemma_child_rows_consistent(s, parent, (n - 1) as nat);
        let prev = child_rows(s, parent, (n - 1) as nat);
        let cur = child_rows(s, parent, n);
        assert forall|j: int| 0 <= j < cur.len() implies {
            let c = #[trigger] cur[j];
            &&& c.1.lines == c.1.blank + c.1.comment + c.1.code
            &&& c.1.n_files == 0
            &&& c.2 == 0
        } by {
            if j < prev.len() {
                assert(cur[j] == prev[j]);
            }
        }
    }
}

proof fn lemma_language_rows_consistent(s: StatsView, n: nat)
    ensures
        forall|i: int|
            0 <= i < language_rows(s, n).len() ==> row_consistent(#[trigger] language_rows(s, n)[i].1),
    decreases n,
{
    if n > 0 {
        lemma_language_rows_consistent(s, (n - 1) as nat);
        lemma_child_rows_consistent(s, n - 1, LANGUAGE_COUNT as nat);
        let prev = language_rows(s, (n - 1) as nat);
        let cur = language_rows(s, n);
        assert forall|i: int| 0 <= i < cur.len() implies row_consistent(#[trigger] cur[i].1) by {
            if i < prev.len() {
                assert(cur[i] == prev[i]);
            }
        }
    }
}

/// Law: in every row of the output, nested rows included, the lines are the
/// blank, comment and code lines together; nested rows have no files of their
/// own and nest nothing further.
pub proof fn lemma_rows_consistent(s: StatsView)
    ensures
        forall|i: int| 0 <= i < output_rows(s).len() ==> row_consistent(#[trigger] output_rows(s)[i].1),
{
    lemma_language_rows_consistent(s, LANGUAGE_COUNT as nat);
    lemma_sum_monotone(s, LANGUAGE_COUNT as nat, LANGUAGE_COUNT as nat);
    let rows = output_rows(s);
    assert forall|i: int| 0 <= i < rows.len() implies row_consistent(#[trigger] rows[i].1) by {
        if i < rows.len() - 1 {
            assert(rows[i] == language_rows(s, LANGUAGE_COUNT as nat)[i]);
        }
    }
}

proof fn lemma_rows_depend_on_counts(s: StatsView, t: StatsView, n: nat)
    requires
        s.langs == t.langs,
        s.children == t.children,
    ensures
        language_rows(s, n) == language_rows(t, n),
        sum_totals(s, n) == sum_totals(t, n),
    decreases n,
{
    if n > 0 {
        lemma_rows_depend_on_counts(s, t, (n - 1) as nat);
        lemma_child_rows_depend(s, t, n - 1, LANGUAGE_COUNT as nat);
    }
    lemma_sums_depend(s, t, n);
}

proof fn lemma_sums_depend(s: StatsView, t: StatsView, n: nat)
    requires
        s.langs == t.langs,
        s.children == t.children,
    ensures
        sum_totals(s, n) == sum_totals(t, n),
        forall|p: int| #[trigger] child_totals(s, p, LANGUAGE_COUNT as nat) == child_totals(
            t,
            p,
            LANGUAGE_COUNT as nat,
        ),
    decreases n,
{
    assert forall|p: int| #[trigger] child_totals(s, p, LANGUAGE_COUNT as nat) == child_totals(
        t,
        p,
        LANGUAGE_COUNT as nat,
    ) by {
        lemma_child_totals_depend(s, t, p, LANGUAGE_COUNT as nat);
    }
    if n > 0 {
        lemma_sums_depend(s, t, (n - 1) as nat);
    }
}

proof fn lemma_child_totals_depend(s: StatsView, t: StatsView, parent: int, n: nat)
    requires
        s.children == t.children,
    ensures
        child_totals(s, parent, n) == child_totals(t, parent, n),
    decreases n,
{
    if n > 0 {
        lemma_child_totals_depend(s, t, parent, (n - 1) as nat);
    }
}

proof fn lemma_child_rows_depend(s: StatsView, t: StatsView, parent: int, n: nat)
    requires
        s.children == t.children,
    ensures
        child_rows(s, parent, n) == child_rows(t, parent, n),
    decreases n,
{
    if n > 0 {
        lemma_child_rows_depend(s, t, parent, (n - 1) as nat);
    }
}

/// Law: merging statistics is associative, as a parallel reduction needs; so
/// the output does not depend on how the merges are grouped.
pub proof fn lemma_merge_associative(a: StatsView, b: StatsView, c: StatsView)
    requires
        stats_wf(a),
        stats_wf(b),
        stats_wf(c),
    ensures
        merge_spec(merge_spec(a, b), c) == merge_spec(a, merge_spec(b, c)),
        output_rows(merge_spec(merge_spec(a, b), c)) == output_rows(merge_spec(a, merge_spec(b, c))),
{
    assert(merge_spec(merge_spec(a, b), c) =~~= merge_spec(a, merge_spec(b, c)));
}

/// Law: statistics that counted nothing are neutral for merging, and leave
/// the output unchanged.
pub proof fn lemma_merge_identity(a: StatsView)
    requires
        stats_wf(a),
    ensures
        merge_spec(a, empty_stats()) == a,
        merge_spec(empty_stats(), a) == a,
        output_rows(merge_spec(a, empty_stats())) == output_rows(a),
{
    assert(merge_spec(a, empty_stats()) =~~= a);
    assert(merge_spec(empty_stats(), a) =~~= a);
}

/// Law: the output does not depend on the order in which two workers'
/// statistics are merged: the rows and the repository count are the same,
/// and so are the ignore patterns once sorted without repeats.
pub proof fn lemma_merge_order_irrelevant(
    a: StatsView,
    b: StatsView,
    pa: Seq<Seq<char>>,
    pb: Seq<Seq<char>>,
)
    requires
        stats_wf(a),
        stats_wf(b),
        strictly_sorted(pa),
        pa.to_set() == merge_spec(a, b).gitignore_patterns.to_set(),
        strictly_sorted(pb),
        pb.to_set() == merge_spec(b, a).gitignore_patterns.to_set(),
    ensures
        output_rows(merge_spec(a, b)) == output_rows(merge_spec(b, a)),
        merge_spec(a, b).git_repos == merge_spec(b, a).git_repos,
        pa == pb,
{
    let ab = merge_spec(a, b);
    let ba = merge_spec(b, a);
    assert(ab.langs =~~= ba.langs);
    assert(ab.children =~~= ba.children) by {
        assert forall|i: int| 0 <= i < ab.children.len() implies ab.children[i] == ba.children[i] by {
            assert(slot_sum(a.children[i], b.children[i]) =~~= slot_sum(b.children[i], a.children[i]));
        }
    }
    lemma_rows_depend_on_counts(ab, ba, LANGUAGE_COUNT as nat);
    assert forall|x: Seq<char>| ab.gitignore_patterns.to_set().contains(x) <==> ba.gitignore_patterns.to_set().contains(x) by {
        let p = a.gitignore_patterns;
        let q = b.gitignore_patterns;
        if (p + q).contains(x) {
            let k = choose|k: int| 0 <= k < (p + q).len() && (p + q)[k] == x;
            if k < p.len() {
                assert((q + p)[q.len() + k] == x);
            } else {
                assert((q + p)[k - p.len()] == x);
            }
        }
        if (q + p).contains(x) {
            let k = choose|k: int| 0 <= k < (q + p).len() && (q + p)[k] == x;
            if k < q.len() {
                assert((p + q)[p.len() + k] == x);
            } else {
                assert((p + q)[k - q.len()] == x);
            }
        }
    }
    assert(pa.to_set() =~= pb.to_set());
    lemma_sorted_unique(pa, pb);
}

/// The numbers of one file's own lines, as a row with no files.
pub open spec fn counts_totals(c: Counts) -> Totals {
    entry_totals(entry_plus(zero_entry(), 0, c), 0)
}

/// `s` with child slots `slots`.
pub open spec fn with_children(s: StatsView, slots: Seq<Option<EntryView>>) -> StatsView {
    StatsView { children: slots, ..s }
}

proof fn lemma_child_totals_slot(
    s: StatsView,
    slots: Seq<Option<EntryView>>,
    p: int,
    k: int,
    c: Counts,
    n: nat,
)
    requires
        0 <= k < s.children.len(),
        slots == s.children.update(k, slot_plus(s.children[k], c)),
        0 <= p < LANGUAGE_COUNT,
        n <= LANGUAGE_COUNT,
        s.children.len() == LANGUAGE_COUNT * LANGUAGE_COUNT,
    ensures
        child_totals(with_children(s, slots), p, n) == if p * LANGUAGE_COUNT <= k < p * LANGUAGE_COUNT + n {
            totals_plus(child_totals(s, p, n), counts_totals(c))
        } else {
            child_totals(s, p, n)
        },
    decreases n,
{
    if n > 0 {
        lemma_child_totals_slot(s, slots, p, k, c, (n - 1) as nat);
    }
}

proof fn lemma_child_totals_add(s: StatsView, lang: int, ch: Seq<(usize, Counts)>, p: int)
    requires
        stats_wf(s),
        0 <= lang < LANGUAGE_COUNT,
        0 <= p < LANGUAGE_COUNT,
        children_in_range(ch),
    ensures
        child_totals(with_children(s, add_children_spec(s.children, lang, ch)), p, LANGUAGE_COUNT as nat)
            == if p == lang {
            totals_plus(child_totals(s, p, LANGUAGE_COUNT as nat), counts_totals(children_sum(ch)))
        } else {
            child_totals(s, p, LANGUAGE_COUNT as nat)
        },
    decreases ch.len(),
{
    if ch.len() == 0 {
        assert(with_children(s, add_children_spec(s.children, lang, ch)) =~= s);
    } else {
        let init = ch.drop_last();
        assert(children_in_range(init)) by {
            assert forall|i: int| 0 <= i < init.len() implies #[trigger] init[i].0 < LANGUAGE_COUNT by {
                assert(init[i] == ch[i]);
            }
        }
        assert(ch[ch.len() - 1].0 < LANGUAGE_COUNT);
        lemma_child_totals_add(s, lang, init, p);
        lemma_add_children_len(s.children, lang, init);
        let prev = add_children_spec(s.children, lang, init);
        let k = lang * LANGUAGE_COUNT + ch.last().0;
        lemma_child_totals_slot(
            with_children(s, prev),
            add_children_spec(s.children, lang, ch),
            p,
            k,
            ch.last().1,
            LANGUAGE_COUNT as nat,
        );
        assert(with_children(with_children(s, prev), add_children_spec(s.children, lang, ch))
            =~= with_children(s, add_children_spec(s.children, lang, ch)));
    }
}

proof fn lemma_sum_after_add(s: StatsView, lang: int, r: (Counts, Seq<(usize, Counts)>), n: nat)
    requires
        stats_wf(s),
        0 <= lang < LANGUAGE_COUNT,
        n <= LANGUAGE_COUNT,
        included(s.langs[lang]),
        children_in_range(r.1),
    ensures
        sum_totals(add_spec(s, lang, r), n) == if lang < n {
            totals_plus(
                sum_totals(s, n),
                totals_plus(entry_totals(entry_plus(zero_entry(), 0, r.0), 1), counts_totals(children_sum(r.1))),
            )
        } else {
            sum_totals(s, n)
        },
    decreases n,
{
    if n > 0 {
        lemma_sum_after_add(s, lang, r, (n - 1) as nat);
        let t = add_spec(s, lang, r);
        lemma_child_totals_add(s, lang, r.1, n - 1);
        assert(with_children(s, add_children_spec(s.children, lang, r.1)).children == t.children);
        lemma_child_totals_depend(with_children(s, add_children_spec(s.children, lang, r.1)), t, n - 1, LANGUAGE_COUNT as nat);
    }
}

/// Law: once a language has lines, counting one more file of it adds exactly
/// one file to the `SUM` row, and that file's blank, comment and code lines
/// together with those of the child blocks embedded in it.
pub proof fn lemma_add_grows_sum(s: StatsView, lang: int, r: (Counts, Seq<(usize, Counts)>))
    requires
        stats_wf(s),
        0 <= lang < LANGUAGE_COUNT,
        included(s.langs[lang]),
        children_in_range(r.1),
    ensures
        output_rows(add_spec(s, lang, r)).last().1.totals == totals_plus(
            output_rows(s).last().1.totals,
            Totals {
                n_files: 1,
                lines: r.0.blank + r.0.comment + r.0.code + children_sum(r.1).blank + children_sum(r.1).comment
                    + children_sum(r.1).code,
                blank: r.0.blank + children_sum(r.1).blank,
                comment: r.0.comment + children_sum(r.1).comment,
                code: r.0.code + children_sum(r.1).code,
            },
        ),
{
    lemma_sum_after_add(s, lang, r, LANGUAGE_COUNT as nat);
}

/// The running sum grows with the languages it covers, and its lines are the
/// sum of its blank, comment and code lines.
proof fn lemma_child_totals(s: StatsView, parent: int, i: nat, n: nat)
    requires
        i <= n,
    ensures
        child_totals(s, parent, n).n_files == 0,
        child_totals(s, parent, i).lines <= child_totals(s, parent, n).lines,
        child_totals(s, parent, n).lines == child_totals(s, parent, n).blank + child_totals(
            s,
            parent,
            n,
        ).comment + child_totals(s, parent, n).code,
    decreases n,
{
    if n > 0 {
        if i < n {
            lemma_child_totals(s, parent, i, (n - 1) as nat);
        } else {
            lemma_child_totals(s, parent, (n - 1) as nat, (n - 1) as nat);
        }
    }
}

proof fn lemma_sum_monotone(s: StatsView, i: nat, n: nat)
    requires
        i <= n,
    ensures
        sum_totals(s, i).n_files <= sum_totals(s, n).n_files,
        sum_totals(s, i).lines <= sum_totals(s, n).lines,
        sum_totals(s, n).lines == sum_totals(s, n).blank + sum_totals(s, n).comment + sum_totals(
            s,
            n,
        ).code,
    decreases n,
{
    if n > 0 {
        lemma_child_totals(s, n - 1, LANGUAGE_COUNT as nat, LANGUAGE_COUNT as nat);
        if i < n {
            lemma_sum_monotone(s, i, (n - 1) as nat);
        } else {
            lemma_sum_monotone(s, (n - 1) as nat, (n - 1) as nat);
        }
    }
}

/// The lines of an optional entry (zero when absent).
pub open spec fn slot_lines(s: Option<EntryView>) -> nat {
    match s {
        Some(e) => e.code + e.comment + e.blank,
        None => 0,
    }
}

/// The files of an optional entry (zero when absent).
pub open spec fn slot_files(s: Option<EntryView>) -> nat {
    match s {
        Some(e) => e.files,
        None => 0,
    }
}

/// Adding the child blocks of one file grows each child slot by at most the
/// lines of all the blocks, and leaves its file count alone.
pub proof fn lemma_add_children_bounded(
    slots: Seq<Option<EntryView>>,
    lang: int,
    ch: Seq<(usize, Counts)>,
)
    requires
        0 <= lang < LANGUAGE_COUNT,
        slots.len() == LANGUAGE_COUNT * LANGUAGE_COUNT,
        children_in_range(ch),
    ensures
        add_children_spec(slots, lang, ch).len() == slots.len(),
        forall|j: int|
            0 <= j < slots.len() ==> slot_lines(#[trigger] add_children_spec(slots, lang, ch)[j])
                <= slot_lines(slots[j]) + children_total(ch),
        forall|j: int|
            0 <= j < slots.len() ==> slot_files(#[trigger] add_children_spec(slots, lang, ch)[j])
                == slot_files(slots[j]),
    decreases ch.len(),
{
    lemma_add_children_len(slots, lang, ch);
    if ch.len() > 0 {
        let init = ch.drop_last();
        assert(children_in_range(init)) by {
            assert forall|i: int| 0 <= i < init.len() implies #[trigger] init[i].0 < LANGUAGE_COUNT by {
                assert(init[i] == ch[i]);
            }
        }
        lemma_add_children_bounded(slots, lang, init);
        let prev = add_children_spec(slots, lang, init);
        let k = lang * LANGUAGE_COUNT + ch.last().0;
        assert(ch[ch.len() - 1].0 < LANGUAGE_COUNT);
        let next = add_children_spec(slots, lang, ch);
        assert forall|j: int| 0 <= j < slots.len() implies slot_lines(#[trigger] next[j])
            <= slot_lines(slots[j]) + children_total(ch) && slot_files(next[j]) == slot_files(slots[j]) by {
            assert(slot_lines(prev[j]) <= slot_lines(slots[j]) + children_total(init));
            if j != k {
                assert(next[j] == prev[j]);
            }
        }
    }
}

proof fn lemma_add_children_fits(
    slots: Seq<Option<EntryView>>,
    lang: int,
    ch: Seq<(usize, Counts)>,
    i: int,
)
    requires
        0 <= i <= ch.len(),
        0 <= lang < LANGUAGE_COUNT,
        slots.len() == LANGUAGE_COUNT * LANGUAGE_COUNT,
        children_in_range(ch),
        forall|j: int|
            0 <= j < slots.len() ==> slot_fits(#[trigger] add_children_spec(slots, lang, ch)[j]),
    ensures
        add_children_spec(slots, lang, ch.take(i)).len() == slots.len(),
        forall|j: int|
            0 <= j < slots.len() ==> slot_fits(
                #[trigger] add_children_spec(slots, lang, ch.take(i))[j],
            ),
    decreases ch.len() - i,
{
    lemma_add_children_len(slots, lang, ch.take(i));
    if i < ch.len() {
        lemma_add_children_fits(slots, lang, ch, i + 1);
        assert(ch.take(i + 1).drop_last() =~= ch.take(i));
        let prev = add_children_spec(slots, lang, ch.take(i));
        let next = add_children_spec(slots, lang, ch.take(i + 1));
        let k = lang * LANGUAGE_COUNT + ch[i].0;
        assert(ch[i].0 < LANGUAGE_COUNT);
        assert forall|j: int| 0 <= j < slots.len() implies slot_fits(#[trigger] prev[j]) by {
            assert(slot_fits(next[j]));
            if j == k {
                assert(next[j] == slot_plus(prev[j], ch[i].1));
            } else {
                assert(next[j] == prev[j]);
            }
        }
    } else {
        assert(ch.take(i) =~= ch);
    }
}

proof fn lemma_add_children_len(slots: Seq<Option<EntryView>>, lang: int, ch: Seq<(usize, Counts)>)
    requires
        0 <= lang < LANGUAGE_COUNT,
        slots.len() == LANGUAGE_COUNT * LANGUAGE_COUNT,
        children_in_range(ch),
    ensures
        add_children_spec(slots, lang, ch).len() == slots.len(),
    decreases ch.len(),
{
    if ch.len() > 0 {
        assert(ch[ch.len() - 1].0 < LANGUAGE_COUNT);
        lemma_add_children_len(slots, lang, ch.drop_last());
    }
}

} // verus!
