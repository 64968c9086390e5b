//! What the report shows: the order of its rows, the rows themselves, and the
//! text of its CSV lines.
use vstd::prelude::*;

use crate::cli::SortColumn;
use crate::engine::text::chars_lt;
use crate::engine::text::chars_of;
use crate::engine::text::lemma_seq_lt_irreflexive;
use crate::engine::text::lemma_seq_lt_transitive;
use crate::engine::text::seq_lt;
use crate::engine::text::str_eq;
use crate::types::LangStats;
use crate::types::OutputStats;

verus! {

broadcast use vstd::seq_lib::group_to_multiset_ensures;

/// The label that marks a nested (child language) row.
pub const CHILD_ROW_PREFIX: &'static str = ">> ";

/// The header line of CSV output.
pub const CSV_HEADER: &'static str = "language,files,lines,blank,comment,code";

/// The lines of a row: its blank, comment and code lines together.
pub fn total_lines(blank: usize, comment: usize, code: usize) -> (r: usize)
    requires
        blank + comment + code <= usize::MAX,
    ensures
        r == blank + comment + code,
{
    blank + comment + code
}

/// The value of column `col` of a row.
pub open spec fn stat_of(s: LangStats, col: SortColumn) -> nat {
    match col {
        SortColumn::Files => s.n_files as nat,
        SortColumn::Lines => (s.blank + s.comment + s.code) as nat,
        SortColumn::Blank => s.blank as nat,
        SortColumn::Comment => s.comment as nat,
        SortColumn::Code => s.code as nat,
    }
}

/// The value of column `col` of a row.
pub fn stat_value(s: &LangStats, col: SortColumn) -> (r: u128)
    ensures
        r == stat_of(*s, col),
{
    match col {
        SortColumn::Files => s.n_files as u128,
        SortColumn::Lines => s.blank as u128 + s.comment as u128 + s.code as u128,
        SortColumn::Blank => s.blank as u128,
        SortColumn::Comment => s.comment as u128,
        SortColumn::Code => s.code as u128,
    }
}

/// Row `a` comes before row `b`: it has the larger value in column `col`
/// (the smaller when `reverse`), or the same value and a name earlier in
/// byte order.
pub open spec fn row_before(a: (String, LangStats), b: (String, LangStats), col: SortColumn, reverse: bool) -> bool {
    let x = stat_of(a.1, col);
    let y = stat_of(b.1, col);
    if x != y {
        if reverse {
            x < y
        } else {
            x > y
        }
    } else {
        seq_lt(a.0@, b.0@)
    }
}

/// Whether row `a` comes before row `b`.
pub fn row_precedes(a: &(String, LangStats), b: &(String, LangStats), col: SortColumn, reverse: bool) -> (r: bool)
    ensures
        r == row_before(*a, *b, col, reverse),
{
    let x = stat_value(&a.1, col);
    let y = stat_value(&b.1, col);
    if x != y {
        if reverse {
            x < y
        } else {
            x > y
        }
    } else {
        chars_lt(&chars_of(a.0.as_str()), &chars_of(b.0.as_str()))
    }
}

/// No row comes before itself.
pub proof fn lemma_row_before_irreflexive(a: (String, LangStats), col: SortColumn, reverse: bool)
    ensures
        !row_before(a, a, col, reverse),
{
    lemma_seq_lt_irreflexive(a.0@);
}

/// Coming before is transitive.
pub proof fn lemma_row_before_transitive(
    a: (String, LangStats),
    b: (String, LangStats),
    c: (String, LangStats),
    col: SortColumn,
    reverse: bool,
)
    requires
        row_before(a, b, col, reverse),
        row_before(b, c, col, reverse),
    ensures
        row_before(a, c, col, reverse),
{
    if stat_of(a.1, col) == stat_of(b.1, col) && stat_of(b.1, col) == stat_of(c.1, col) {
        lemma_seq_lt_transitive(a.0@, b.0@, c.0@);
    }
}

/// `order` lists rows of `rows`, none after a row it comes before.
pub open spec fn sorted_rows(rows: Seq<(String, LangStats)>, order: Seq<usize>, col: SortColumn, reverse: bool) -> bool {
    &&& forall|k: int| 0 <= k < order.len() ==> #[trigger] order[k] < rows.len()
    &&& forall|i: int, j: int|
        0 <= i < j < order.len() ==> !row_before(
            #[trigger] rows[order[j] as int],
            #[trigger] rows[order[i] as int],
            col,
            reverse,
        )
}

/// Law: in an order sorted by a column, each row's value in that column is at
/// least that of every later row (at most, when `reverse`): by files, by all
/// lines, by blank, by comment or by code lines, as the column says.
pub proof fn lemma_sorted_by_column(
    rows: Seq<(String, LangStats)>,
    order: Seq<usize>,
    col: SortColumn,
    reverse: bool,
    i: int,
    j: int,
)
    requires
        sorted_rows(rows, order, col, reverse),
        0 <= i < j < order.len(),
    ensures
        ({
            let a = rows[order[i] as int].1;
            let b = rows[order[j] as int].1;
            &&& col == SortColumn::Files ==> if reverse {
                a.n_files <= b.n_files
            } else {
                a.n_files >= b.n_files
            }
            &&& col == SortColumn::Lines ==> if reverse {
                a.blank + a.comment + a.code <= b.blank + b.comment + b.code
            } else {
                a.blank + a.comment + a.code >= b.blank + b.comment + b.code
            }
            &&& col == SortColumn::Blank ==> if reverse {
                a.blank <= b.blank
            } else {
                a.blank >= b.blank
            }
            &&& col == SortColumn::Comment ==> if reverse {
                a.comment <= b.comment
            } else {
                a.comment >= b.comment
            }
            &&& col == SortColumn::Code ==> if reverse {
                a.code <= b.code
            } else {
                a.code >= b.code
            }
        }),
{
    assert(!row_before(rows[order[j] as int], rows[order[i] as int], col, reverse));
}

/// Sort `order`, a list of rows of `rows` by index, by column `col`: largest
/// value first (smallest when `reverse`), ties by name.
pub fn sort_by_stats(order: &mut Vec<usize>, rows: &Vec<(String, LangStats)>, col: SortColumn, reverse: bool)
    requires
        forall|k: int| 0 <= k < old(order)@.len() ==> #[trigger] old(order)@[k] < rows@.len(),
    ensures
        final(order)@.to_multiset() == old(order)@.to_multiset(),
        sorted_rows(rows@, final(order)@, col, reverse),
{
    let src = order.clone();
    assert(src@ == old(order)@);
    let mut out: Vec<usize> = Vec::new();
    let mut i: usize = 0;
    assert(src@.take(0) =~= Seq::<usize>::empty());
    while i < src.len()
        invariant
            i <= src.len(),
            forall|k: int| 0 <= k < src@.len() ==> #[trigger] src@[k] < rows@.len(),
            out@.to_multiset() == src@.take(i as int).to_multiset(),
            sorted_rows(rows@, out@, col, reverse),
        decreases src.len() - i,
    {
        let x = src[i];
        let mut j: usize = 0;
        while j < out.len() && !row_precedes(&rows[x], &rows[out[j]], col, reverse)
            invariant
                j <= out.len(),
                x < rows@.len(),
                sorted_rows(rows@, out@, col, reverse),
                forall|k: int| 0 <= k < j ==> !row_before(rows@[x as int], #[trigger] rows@[out@[k] as int], col, reverse),
            decreases out.len() - j,
        {
            j += 1;
        }
        let ghost before = out@;
        out.insert(j, x);
        proof {
            let after = out@;
            assert(after =~= before.insert(j as int, x));
            assert(after.remove(j as int) =~= before);
            assert(after[j as int] == x);
            assert(after.to_multiset() =~= before.to_multiset().insert(x)) by {
                assert(after.to_multiset().remove(x) == before.to_multiset());
                assert(after.to_multiset().count(x) > 0);
            }
            assert(src@.take(i + 1) =~= src@.take(i as int).push(x));
            assert forall|k: int| 0 <= k < after.len() implies #[trigger] after[k] < rows@.len() by {
                if k < j {
                    assert(after[k] == before[k]);
                } else if k > j {
                    assert(after[k] == before[k - 1]);
                }
            }
            assert forall|a: int, b: int| 0 <= a < b < after.len() implies !row_before(
                #[trigger] rows@[after[b] as int],
                #[trigger] rows@[after[a] as int],
                col,
                reverse,
            ) by {
                if b < j {
                    assert(after[a] == before[a] && after[b] == before[b]);
                } else if b == j {
                    assert(after[a] == before[a]);
                } else if a == j {
                    assert(after[b] == before[b - 1]);
                    let xr = rows@[x as int];
                    let jr = rows@[before[j as int] as int];
                    let br = rows@[before[b - 1] as int];
                    assert(row_before(xr, jr, col, reverse));
                    if row_before(br, xr, col, reverse) {
                        lemma_row_before_transitive(br, xr, jr, col, reverse);
                        if b - 1 == j {
                            lemma_row_before_irreflexive(jr, col, reverse);
                        }
                    }
                } else if a < j {
                    assert(after[a] == before[a] && after[b] == before[b - 1]);
                } else {
                    assert(after[a] == before[a - 1] && after[b] == before[b - 1]);
                }
            }
        }
        i += 1;
    }
    assert(src@.take(src.len() as int) =~= src@);
    *order = out;
}

/// What a report row is.
#[derive(Clone, Copy, PartialEq, Eq, Structural)]
pub enum RowKind {
    /// A language.
    Language,
    /// A child language nested in the language above it.
    Child,
    /// The totals.
    Sum,
}

/// A row of the report, in display order.
pub struct ReportRow {
    pub label: String,
    pub kind: RowKind,
    pub files: usize,
    pub lines: u128,
    pub blank: usize,
    pub comment: usize,
    pub code: usize,
}

/// The mathematical value of a [`ReportRow`].
pub struct ReportRowView {
    pub label: Seq<char>,
    pub kind: RowKind,
    pub files: nat,
    pub lines: nat,
    pub blank: nat,
    pub comment: nat,
    pub code: nat,
}

/// The value of a report row.
pub open spec fn report_row_view(r: ReportRow) -> ReportRowView {
    ReportRowView {
        label: r.label@,
        kind: r.kind,
        files: r.files as nat,
        lines: r.lines as nat,
        blank: r.blank as nat,
        comment: r.comment as nat,
        code: r.code as nat,
    }
}

/// The values of a list of report rows.
pub open spec fn report_view(v: Seq<ReportRow>) -> Seq<ReportRowView> {
    Seq::new(v.len(), |i: int| report_row_view(v[i]))
}

/// The report row of statistics `s` under `label`; its lines are its blank,
/// comment and code lines together.
pub open spec fn row_of(label: Seq<char>, kind: RowKind, s: LangStats) -> ReportRowView {
    ReportRowView {
        label,
        kind,
        files: s.n_files as nat,
        lines: (s.blank + s.comment + s.code) as nat,
        blank: s.blank as nat,
        comment: s.comment as nat,
        code: s.code as nat,
    }
}

/// The indices below `n` of the rows not named `SUM`, in order.
pub open spec fn non_sum(rows: Seq<(String, LangStats)>, n: nat) -> Seq<usize>
    decreases n,
{
    if n == 0 {
        Seq::empty()
    } else {
        let prev = non_sum(rows, (n - 1) as nat);
        if rows[n - 1].0@ == "SUM"@ {
            prev
        } else {
            prev.push((n - 1) as usize)
        }
    }
}

/// The indices below `n`, in order.
pub open spec fn indices(n: nat) -> Seq<usize> {
    Seq::new(n, |i: int| i as usize)
}

/// The index of the first row named `SUM`.
pub open spec fn sum_index(rows: Seq<(String, LangStats)>, n: nat) -> Option<int>
    decreases n,
{
    if n == 0 {
        None
    } else {
        match sum_index(rows, (n - 1) as nat) {
            Some(i) => Some(i),
            None => if rows[n - 1].0@ == "SUM"@ {
                Some(n - 1)
            } else {
                None
            },
        }
    }
}

/// The child rows of `s` in the order `order`, labelled with the child prefix.
pub open spec fn child_block(s: LangStats, order: Seq<usize>) -> Seq<ReportRowView> {
    Seq::new(
        order.len(),
        |k: int|
            row_of(
                CHILD_ROW_PREFIX@ + s.children@[order[k] as int].0@,
                RowKind::Child,
                s.children@[order[k] as int].1,
            ),
    )
}

/// The rows of language row `idx`: its own, then (unless compact) its children.
pub open spec fn language_block(
    rows: Seq<(String, LangStats)>,
    idx: usize,
    child_order: Seq<usize>,
    compact: bool,
) -> Seq<ReportRowView> {
    seq![row_of(rows[idx as int].0@, RowKind::Language, rows[idx as int].1)] + if compact {
        Seq::empty()
    } else {
        child_block(rows[idx as int].1, child_order)
    }
}

/// The language blocks in the order `order`, each with its children in the
/// order of `child_orders`.
pub open spec fn body_spec(
    rows: Seq<(String, LangStats)>,
    order: Seq<usize>,
    child_orders: Seq<Seq<usize>>,
    compact: bool,
) -> Seq<ReportRowView>
    decreases order.len(),
{
    if order.len() == 0 {
        Seq::empty()
    } else {
        body_spec(rows, order.drop_last(), child_orders.drop_last(), compact) + language_block(
            rows,
            order.last(),
            child_orders.last(),
            compact,
        )
    }
}

/// The `SUM` row, when the output has one.
pub open spec fn sum_rows(rows: Seq<(String, LangStats)>) -> Seq<ReportRowView> {
    match sum_index(rows, rows.len()) {
        Some(i) => seq![row_of("SUM"@, RowKind::Sum, rows[i].1)],
        None => Seq::empty(),
    }
}

/// The orders are those of a report sorted by column `col`: the languages
/// other than `SUM` sorted, and the children of each sorted.
pub open spec fn report_orders(
    rows: Seq<(String, LangStats)>,
    order: Seq<usize>,
    child_orders: Seq<Seq<usize>>,
    col: SortColumn,
    reverse: bool,
) -> bool {
    &&& order.to_multiset() == non_sum(rows, rows.len()).to_multiset()
    &&& sorted_rows(rows, order, col, reverse)
    &&& child_orders.len() == order.len()
    &&& forall|k: int|
        0 <= k < order.len() ==> {
            let ch = rows[order[k] as int].1.children@;
            &&& (#[trigger] child_orders[k]).to_multiset() == indices(ch.len()).to_multiset()
            &&& sorted_rows(ch, child_orders[k], col, reverse)
        }
}

fn non_sum_order(rows: &Vec<(String, LangStats)>) -> (r: Vec<usize>)
    ensures
        r@ == non_sum(rows@, rows@.len()),
        forall|k: int| 0 <= k < r@.len() ==> #[trigger] r@[k] < rows@.len(),
{
    let mut r: Vec<usize> = Vec::new();
    let mut i: usize = 0;
    while i < rows.len()
        invariant
            i <= rows.len(),
            r@ == non_sum(rows@, i as nat),
            forall|k: int| 0 <= k < r@.len() ==> #[trigger] r@[k] < i,
        decreases rows.len() - i,
    {
        if !str_eq(rows[i].0.as_str(), "SUM") {
            r.push(i);
        }
        i += 1;
    }
    r
}

fn index_order(n: usize) -> (r: Vec<usize>)
    ensures
        r@ == indices(n as nat),
{
    let mut r: Vec<usize> = Vec::new();
    let mut i: usize = 0;
    while i < n
        invariant
            i <= n,
            r@ =~= indices(i as nat),
        decreases n - i,
    {
        r.push(i);
        i += 1;
    }
    r
}

fn find_sum(rows: &Vec<(String, LangStats)>) -> (r: Option<usize>)
    ensures
        match r {
            Some(i) => sum_index(rows@, rows@.len()) == Some(i as int) && i < rows@.len(),
            None => sum_index(rows@, rows@.len()) is None,
        },
{
    let mut i: usize = 0;
    while i < rows.len()
        invariant
            i <= rows.len(),
            sum_index(rows@, i as nat) is None,
        decreases rows.len() - i,
    {
        if str_eq(rows[i].0.as_str(), "SUM") {
            proof {
                lemma_sum_index_stable(rows@, (i + 1) as nat, rows@.len());
            }
            return Some(i);
        }
        i += 1;
    }
    None
}

proof fn lemma_sum_index_stable(rows: Seq<(String, LangStats)>, m: nat, n: nat)
    requires
        m <= n,
        sum_index(rows, m) is Some,
    ensures
        sum_index(rows, n) == sum_index(rows, m),
    decreases n,
{
    if n > m {
        lemma_sum_index_stable(rows, m, (n - 1) as nat);
    }
}

fn report_row(label: String, kind: RowKind, s: &LangStats) -> (r: ReportRow)
    ensures
        report_row_view(r) == row_of(label@, kind, *s),
{
    ReportRow {
        label,
        kind,
        files: s.n_files,
        lines: s.blank as u128 + s.comment as u128 + s.code as u128,
        blank: s.blank,
        comment: s.comment,
        code: s.code,
    }
}

/// The rows of the report of `output`, sorted by column `col` (largest first,
/// smallest when `reverse`, ties by name): each language other than `SUM`,
/// followed unless `compact` by its child languages sorted the same way and
/// labelled with the child prefix; then the `SUM` row, when there is one.
pub fn report_rows(output: &OutputStats, col: SortColumn, reverse: bool, compact: bool) -> (r: Vec<ReportRow>)
    ensures
        exists|order: Seq<usize>, child_orders: Seq<Seq<usize>>|
            #[trigger] report_orders(output.languages@, order, child_orders, col, reverse)
                && report_view(r@) == body_spec(output.languages@, order, child_orders, compact)
                + sum_rows(output.languages@),
{
    let rows = &output.languages;
    let mut order = non_sum_order(rows);
    let ghost unsorted = order@;
    sort_by_stats(&mut order, rows, col, reverse);
    let mut out: Vec<ReportRow> = Vec::new();
    let ghost mut child_orders: Seq<Seq<usize>> = Seq::empty();
    let mut k: usize = 0;
    assert(order@.take(0) =~= Seq::<usize>::empty());
    assert(report_view(out@) =~= Seq::<ReportRowView>::empty());
    while k < order.len()
        invariant
            k <= order.len(),
            sorted_rows(rows@, order@, col, reverse),
            child_orders.len() == k,
            forall|m: int|
                0 <= m < k ==> {
                    let ch = rows@[order@[m] as int].1.children@;
                    &&& (#[trigger] child_orders[m]).to_multiset() == indices(ch.len()).to_multiset()
                    &&& sorted_rows(ch, child_orders[m], col, reverse)
                },
            report_view(out@) == body_spec(rows@, order@.take(k as int), child_orders, compact),
        decreases order.len() - k,
    {
        let idx = order[k];
        let entry = &rows[idx];
        let ghost before = report_view(out@);
        out.push(report_row(entry.0.clone(), RowKind::Language, &entry.1));
        let children = &entry.1.children;
        let mut co = index_order(children.len());
        proof {
            assert forall|m: int| 0 <= m < co@.len() implies #[trigger] co@[m] < children@.len() by {}
        }
        sort_by_stats(&mut co, children, col, reverse);
        if !compact {
            let mut c: usize = 0;
            while c < co.len()
                invariant
                    c <= co.len(),
                    children@ == entry.1.children@,
                    sorted_rows(children@, co@, col, reverse),
                    report_view(out@) == before + seq![row_of(entry.0@, RowKind::Language, entry.1)]
                        + child_block(entry.1, co@.take(c as int)),
                decreases co.len() - c,
            {
                let child = &children[co[c]];
                let mut label = CHILD_ROW_PREFIX.to_owned();
                label.append(child.0.as_str());
                let ghost mid = report_view(out@);
                let ghost lv = label@;
                assert(lv == CHILD_ROW_PREFIX@ + entry.1.children@[co@[c as int] as int].0@);
                out.push(report_row(label, RowKind::Child, &child.1));
                let ghost new_row = row_of(lv, RowKind::Child, child.1);
                assert(report_view(out@) =~= mid.push(new_row));
                assert(child_block(entry.1, co@.take(c + 1)) =~= child_block(
                    entry.1,
                    co@.take(c as int),
                ).push(new_row));
                c += 1;
            }
            assert(co@.take(co.len() as int) =~= co@);
        }
        proof {
            let next_orders = child_orders.push(co@);
            assert(order@.take(k + 1).drop_last() =~= order@.take(k as int));
            assert(next_orders.drop_last() =~= child_orders);
            assert(order@.take(k + 1).last() == idx);
            if compact {
                assert(report_view(out@) =~= before + language_block(rows@, idx, co@, compact));
            } else {
                assert(report_view(out@) =~= before + language_block(rows@, idx, co@, compact));
            }
            child_orders = next_orders;
        }
        k += 1;
    }
    assert(order@.take(order.len() as int) =~= order@);
    let ghost body = report_view(out@);
    match find_sum(rows) {
        Some(i) => {
            out.push(report_row("SUM".to_owned(), RowKind::Sum, &rows[i].1));
            assert(report_view(out@) =~= body + sum_rows(rows@));
        },
        None => {
            assert(report_view(out@) =~= body + sum_rows(rows@));
        },
    }
    assert(report_orders(rows@, order@, child_orders, col, reverse));
    out
}

/// The decimal digit of value `d`.
pub open spec fn digit_char(d: nat) -> char {
    if d == 0 {
        '0'
    } else if d == 1 {
        '1'
    } else if d == 2 {
        '2'
    } else if d == 3 {
        '3'
    } else if d == 4 {
        '4'
    } else if d == 5 {
        '5'
    } else if d == 6 {
        '6'
    } else if d == 7 {
        '7'
    } else if d == 8 {
        '8'
    } else {
        '9'
    }
}

/// The decimal representation of `n`, without leading zeros.
pub open spec fn decimal(n: nat) -> Seq<char>
    decreases n,
{
    if n < 10 {
        seq![digit_char(n)]
    } else {
        decimal(n / 10).push(digit_char(n % 10))
    }
}

fn digit_str(d: u128) -> (r: &'static str)
    requires
        d < 10,
    ensures
        r@ == seq![digit_char(d as nat)],
{
    if d == 0 {
        proof {
            reveal_strlit("0");
        }
        assert("0"@ =~= seq!['0']);
        "0"
    } else if d == 1 {
        proof {
            reveal_strlit("1");
        }
        assert("1"@ =~= seq!['1']);
        "1"
    } else if d == 2 {
        proof {
            reveal_strlit("2");
        }
        assert("2"@ =~= seq!['2']);
        "2"
    } else if d == 3 {
        proof {
            reveal_strlit("3");
        }
        assert("3"@ =~= seq!['3']);
        "3"
    } else if d == 4 {
        proof {
            reveal_strlit("4");
        }
        assert("4"@ =~= seq!['4']);
        "4"
    } else if d == 5 {
        proof {
            reveal_strlit("5");
        }
        assert("5"@ =~= seq!['5']);
        "5"
    } else if d == 6 {
        proof {
            reveal_strlit("6");
        }
        assert("6"@ =~= seq!['6']);
        "6"
    } else if d == 7 {
        proof {
            reveal_strlit("7");
        }
        assert("7"@ =~= seq!['7']);
        "7"
    } else if d == 8 {
        proof {
            reveal_strlit("8");
        }
        assert("8"@ =~= seq!['8']);
        "8"
    } else {
        proof {
            reveal_strlit("9");
        }
        assert("9"@ =~= seq!['9']);
        "9"
    }
}

fn push_decimal(s: &mut String, n: u128)
    ensures
        final(s)@ == old(s)@ + decimal(n as nat),
    decreases n,
{
    if n >= 10 {
        push_decimal(s, n / 10);
    }
    s.append(digit_str(n % 10));
    assert(old(s)@ + decimal(n as nat) =~= if n >= 10 {
        old(s)@ + decimal((n / 10) as nat) + seq![digit_char((n % 10) as nat)]
    } else {
        old(s)@ + seq![digit_char((n % 10) as nat)]
    });
}

/// The decimal representation of `n`.
pub fn decimal_string(n: u128) -> (r: String)
    ensures
        r@ == decimal(n as nat),
{
    let mut s = String::new();
    push_decimal(&mut s, n);
    assert(s@ =~= decimal(n as nat));
    s
}

/// The CSV line of a report row: its label (quoted, with `0` files, for a
/// child row), files, lines, blank, comment and code, separated by commas.
pub open spec fn csv_line_spec(r: ReportRowView) -> Seq<char> {
    let nums = ","@ + decimal(r.lines) + ","@ + decimal(r.blank) + ","@ + decimal(r.comment) + ","@
        + decimal(r.code);
    match r.kind {
        RowKind::Child => "\""@ + r.label + "\",0"@ + nums,
        _ => r.label + ","@ + decimal(r.files) + nums,
    }
}

/// The CSV line of a report row.
pub fn csv_line(row: &ReportRow) -> (r: String)
    ensures
        r@ == csv_line_spec(report_row_view(*row)),
{
    let mut s = String::new();
    match row.kind {
        RowKind::Child => {
            s.append("\"");
            s.append(row.label.as_str());
            s.append("\",0");
        },
        _ => {
            s.append(row.label.as_str());
            s.append(",");
            s.append(decimal_string(row.files as u128).as_str());
        },
    }
    s.append(",");
    s.append(decimal_string(row.lines).as_str());
    s.append(",");
    s.append(decimal_string(row.blank as u128).as_str());
    s.append(",");
    s.append(decimal_string(row.comment as u128).as_str());
    s.append(",");
    s.append(decimal_string(row.code as u128).as_str());
    assert(s@ =~= csv_line_spec(report_row_view(*row)));
    s
}

/// The CSV output of a report: the header, then a line per row.
pub fn csv_lines(rows: &Vec<ReportRow>) -> (r: Vec<String>)
    ensures
        r@.len() == rows@.len() + 1,
        r@[0]@ == CSV_HEADER@,
        forall|k: int| 0 <= k < rows@.len() ==> #[trigger] r@[k + 1]@ == csv_line_spec(report_row_view(rows@[k])),
{
    let mut out: Vec<String> = Vec::new();
    out.push(CSV_HEADER.to_owned());
    let mut i: usize = 0;
    while i < rows.len()
        invariant
            i <= rows.len(),
            out@.len() == i + 1,
            out@[0]@ == CSV_HEADER@,
            forall|k: int| 0 <= k < i ==> #[trigger] out@[k + 1]@ == csv_line_spec(report_row_view(rows@[k])),
        decreases rows.len() - i,
    {
        out.push(csv_line(&rows[i]));
        i += 1;
    }
    out
}

/// How a table row is drawn.
pub struct RowStyle {
    /// Every cell in bold.
    pub bold: bool,
    /// Every cell in cyan.
    pub all_cyan: bool,
    /// The label in green.
    pub name_green: bool,
}

/// How a table row of kind `kind` is drawn: the `SUM` row bold and, with
/// color, all cyan; other rows plain with, with color, a green label.
pub fn row_style(kind: RowKind, color: bool) -> (r: RowStyle)
    ensures
        r.bold == (kind == RowKind::Sum),
        r.all_cyan == (color && kind == RowKind::Sum),
        r.name_green == (color && kind != RowKind::Sum),
{
    let sum = match kind {
        RowKind::Sum => true,
        _ => false,
    };
    RowStyle { bold: sum, all_cyan: color && sum, name_green: color && !sum }
}

} // verus!
