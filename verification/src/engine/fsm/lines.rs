//! Every line of a file is counted exactly once, as code, comment or blank:
//! the classifier's counts add up to the file's number of lines.
use vstd::prelude::*;

use super::classify::classify_prefix_spec;
use super::classify::emit_counts;
use super::classify::is_non_ws;
use super::classify::has_non_ws;
use super::classify::has_word_byte;
use crate::engine::scanner::lemma_contains2;
use crate::engine::scanner::lemma_contains3;
use crate::engine::language::c_view;
use super::model::flush_child_spec;
use super::model::line_as_code;
use super::model::pure_code_counts;
use super::model::aggregate;
use super::model::doc_block;
use super::model::line_end;
use super::model::prefixes_nonempty;
use super::model::strip_any_prefix;
use super::parser::helpers::lemma_doc_block_len;
use super::types::Counts;
use super::types::children_sum;
use super::types::children_total;
use super::types::grand_total;
use super::types::zero_counts_view;
use crate::engine::language::MARKDOWN;
use crate::engine::language::language_view;
use crate::engine::language::lemma_registry_prefixes;
use super::line_languages::lemma_registry_lines;
use super::model::ParserView;
use super::model::Outcome;
use super::model::comment_flags;
use super::model::count_file_spec;
use super::model::emit_and_return;
use super::model::finish_spec;
use super::model::first_byte_or;
use super::model::parser_init;
use super::model::reset_line;
use super::types::FileResultView;
use super::model::run_measure;
use super::model::run_spec;
use super::model::step_flat_block_spec;
use super::model::step_in_string_spec;
use super::model::step_line_comment_spec;
use super::model::step_nested_block_spec;
use super::model::step_normal_spec;
use super::model::step_spec;
use super::model::step_token_spec;
use super::model::string_escape;
use super::token::best_region;
use super::token::lemma_best_region_bounds;
use super::token::match_token_spec;
use super::token::opens_here;
use super::token::starts_with;
use super::types::LineType;
use super::types::ParseState;
use super::types::TokenMatch;
use super::types::counts_total;
use crate::engine::language::LanguageView;
use crate::engine::language::RegionKind;
use crate::engine::language::RegionView;
use crate::engine::language::StructuredFormat;
use crate::engine::scanner::first_of;
use crate::engine::scanner::is_first_of;
use crate::engine::scanner::lemma_first_of;

verus! {

/// Number of newline bytes in `s`.
pub open spec fn newlines(s: Seq<u8>) -> nat
    decreases s.len(),
{
    if s.len() == 0 {
        0
    } else {
        newlines(s.drop_last()) + if s.last() == 10u8 {
            1nat
        } else {
            0nat
        }
    }
}

/// Number of lines of `content`: one per newline, and one more for a final
/// line that no newline ends.
pub open spec fn line_count(content: Seq<u8>) -> nat {
    newlines(content) + if content.len() > 0 && content.last() != 10u8 {
        1nat
    } else {
        0nat
    }
}

/// No byte of `s` is a newline.
pub open spec fn free_of_newline(s: Seq<u8>) -> bool
    decreases s.len(),
{
    s.len() == 0 || (s[0] != 10u8 && free_of_newline(s.drop_first()))
}

proof fn lemma_free_of_newline(s: Seq<u8>)
    requires
        free_of_newline(s),
    ensures
        forall|k: int| 0 <= k < s.len() ==> #[trigger] s[k] != 10u8,
    decreases s.len(),
{
    if s.len() > 0 {
        lemma_free_of_newline(s.drop_first());
        assert forall|k: int| 0 <= k < s.len() implies #[trigger] s[k] != 10u8 by {
            if k > 0 {
                assert(s[k] == s.drop_first()[k - 1]);
            }
        }
    }
}

/// A region that opens and closes within a line (or closes at the newline).
pub open spec fn plain_region(r: RegionView) -> bool {
    &&& r.open.len() > 0
    &&& free_of_newline(r.open)
    &&& r.close.len() > 0
    &&& (r.close == seq![10u8] || free_of_newline(r.close))
    &&& (r.kind is String ==> r.close != seq![10u8])
}

/// A language of text lines whose regions, other than those of embedded
/// languages, are plain, and that stops at every newline and at no whitespace
/// byte.
pub open spec fn line_language(lang: LanguageView) -> bool {
    &&& lang.structured_format == StructuredFormat::Text
    &&& lang.regions.len() <= usize::MAX
    &&& lang.interest_bytes.contains(10u8)
    &&& forall|k: int|
        0 <= k < lang.interest_bytes.len() ==> is_non_ws(#[trigger] lang.interest_bytes[k])
    &&& forall|i: int|
        0 <= i < lang.regions.len() ==> (#[trigger] lang.regions[i]).kind is Child || plain_region(
            lang.regions[i],
        )
}

/// No region of an embedded language opens anywhere in `content`.
pub open spec fn opens_no_child(content: Seq<u8>, lang: LanguageView) -> bool {
    forall|p: int, i: int|
        0 <= p <= content.len() && 0 <= i < lang.regions.len() && (#[trigger] lang.regions[i]).kind is Child
            ==> !starts_with(#[trigger] content.skip(p), lang.regions[i].open)
}

/// `content` does not begin with a leading documentation block.
pub open spec fn starts_without_doc(content: Seq<u8>, lang: LanguageView) -> bool {
    lang.leading_doc_prefixes.len() == 0 || doc_block(content, lang.leading_doc_prefixes, 0).0.len()
        == 0
}

/// The newlines before position `pos` (positions past the end count as the end).
spec fn seen(content: Seq<u8>, pos: int) -> nat {
    newlines(
        content.take(
            if pos < content.len() {
                pos
            } else {
                content.len() as int
            },
        ),
    )
}

/// The byte before position `pos` ends a line (or there is none).
spec fn at_line_start(content: Seq<u8>, pos: int) -> bool {
    pos <= 0 || content[(if pos < content.len() {
        pos
    } else {
        content.len() as int
    }) - 1] == 10u8
}

/// What holds of every state the classifier reaches on a line language: it
/// has counted one line per newline passed, and a line it is in the middle of
/// is not blank.
spec fn conserving(content: Seq<u8>, lang: LanguageView, s: ParserView) -> bool {
    &&& 0 <= s.pos <= content.len() + 1
    &&& counts_total(s.counts) == seen(content, s.pos)
    &&& match s.parse {
        ParseState::Normal => !at_line_start(content, s.pos) ==> s.line_type != LineType::Blank,
        ParseState::LineComment => s.line_type != LineType::Blank,
        ParseState::BlockComment { depth, region } => {
            &&& region < lang.regions.len()
            &&& lang.regions[region as int].kind is Comment
            &&& lang.regions[region as int].close != seq![10u8]
            &&& s.line_type != LineType::Blank
        },
        ParseState::InString { region } => {
            &&& region < lang.regions.len()
            &&& lang.regions[region as int].kind is String
            &&& s.line_type == LineType::Code
        },
        ParseState::InChild { .. } => false,
    }
}

/// Passing the bytes from `p` to `q`, none a newline but perhaps the last,
/// passes one newline if the last is one and none otherwise.
proof fn lemma_seen_span(content: Seq<u8>, p: int, q: int)
    requires
        0 <= p <= q <= content.len(),
        forall|j: int| p <= j < q - 1 ==> #[trigger] content[j] != 10u8,
    ensures
        seen(content, q) == seen(content, p) + if q > p && content[q - 1] == 10u8 {
            1nat
        } else {
            0nat
        },
    decreases q - p,
{
    if q > p {
        assert(content.take(q).drop_last() =~= content.take(q - 1));
        assert(content.take(q).last() == content[q - 1]);
        lemma_seen_span(content, p, q - 1);
    }
}

/// A delimiter without newlines that starts at `p` spans no newline.
proof fn lemma_delimiter_span(content: Seq<u8>, p: int, d: Seq<u8>)
    requires
        0 <= p <= content.len(),
        starts_with(content.skip(p), d),
        free_of_newline(d),
    ensures
        p + d.len() <= content.len(),
        seen(content, p + d.len()) == seen(content, p),
        d.len() > 0 ==> content[p + d.len() - 1] != 10u8,
{
    lemma_free_of_newline(d);
    assert forall|j: int| p <= j < p + d.len() implies #[trigger] content[j] != 10u8 by {
        assert(content.skip(p).take(d.len() as int)[j - p] == content[j]);
        assert(d[j - p] == content[j]);
    }
    lemma_seen_span(content, p, p + d.len());
}

/// A step of the classifier from a conserving state: it continues to a
/// conserving state closer to the end, or returns one count per line.
spec fn step_ok(content: Seq<u8>, lang: LanguageView, s: ParserView, res: (ParserView, Outcome)) -> bool {
    match res.1 {
        Outcome::Continue => conserving(content, lang, res.0) && run_measure(
            content.len() as int,
            res.0,
        ) < run_measure(content.len() as int, s) && res.0.children == s.children,
        Outcome::Return(r) => counts_total(r.counts) == line_count(content) && r.children
            == s.children,
        Outcome::Break => false,
    }
}

/// What a search from `pos` for bytes of `needles` (among them the newline) finds.
proof fn lemma_scan(content: Seq<u8>, pos: int, needles: Seq<u8>)
    requires
        0 <= pos < content.len(),
        needles.contains(10u8),
    ensures
        match first_of(content.skip(pos), needles) {
            Some(i) => {
                &&& 0 <= i < content.len() - pos
                &&& content.skip(pos)[i] == content[pos + i]
                &&& needles.contains(content[pos + i])
                &&& forall|j: int| pos <= j < pos + i ==> #[trigger] content[j] != 10u8
            },
            None => forall|j: int| pos <= j < content.len() ==> #[trigger] content[j] != 10u8,
        },
{
    let bytes = content.skip(pos);
    lemma_first_of(bytes, needles);
    let k = choose|k: int| 0 <= k < needles.len() && needles[k] == 10u8;
    match first_of(bytes, needles) {
        Some(i) => {
            assert forall|j: int| pos <= j < pos + i implies #[trigger] content[j] != 10u8 by {
                assert(bytes[j - pos] == content[j]);
                assert(!needles.contains(bytes[j - pos]));
                if content[j] == 10u8 {
                    assert(needles[k] == bytes[j - pos]);
                }
            }
        },
        None => {
            assert forall|j: int| pos <= j < content.len() implies #[trigger] content[j] != 10u8 by {
                assert(bytes[j - pos] == content[j]);
                assert(!needles.contains(bytes[j - pos]));
                if content[j] == 10u8 {
                    assert(needles[k] == bytes[j - pos]);
                }
            }
        },
    }
}

/// With no newline from `pos` on, the lines are those passed plus the last.
proof fn lemma_tail(content: Seq<u8>, pos: int)
    requires
        0 <= pos < content.len(),
        forall|j: int| pos <= j < content.len() ==> #[trigger] content[j] != 10u8,
    ensures
        line_count(content) == seen(content, pos) + 1,
{
    lemma_seen_span(content, pos, content.len() as int);
    assert(content.take(content.len() as int) =~= content);
    assert(content[content.len() - 1] != 10u8);
}

proof fn lemma_step_line_comment(content: Seq<u8>, lang: LanguageView, s: ParserView)
    requires
        line_language(lang),
        opens_no_child(content, lang),
        conserving(content, lang, s),
        0 <= s.pos < content.len(),
        s.parse == ParseState::LineComment,
    ensures
        step_ok(content, lang, s, step_line_comment_spec(content, s)),
{
    assert(seq![10u8][0] == 10u8);
    lemma_scan(content, s.pos, seq![10u8]);
    match first_of(content.skip(s.pos), seq![10u8]) {
        Some(nl) => {
            lemma_seen_span(content, s.pos, s.pos + nl + 1);
        },
        None => {
            lemma_tail(content, s.pos);
        },
    }
}

proof fn lemma_step_nested_block(
    content: Seq<u8>,
    lang: LanguageView,
    s: ParserView,
    depth: u8,
    region: usize,
)
    requires
        line_language(lang),
        opens_no_child(content, lang),
        conserving(content, lang, s),
        0 <= s.pos < content.len(),
        s.parse == (ParseState::BlockComment { depth, region }),
    ensures
        step_ok(content, lang, s, step_nested_block_spec(content, lang, s, depth, region)),
{
    let r = lang.regions[region as int];
    assert(!(r.kind is Child));
    assert(plain_region(r));
    let open_first = first_byte_or(r.open, 47u8);
    let close_first = first_byte_or(r.close, 42u8);
    let needles = seq![10u8, open_first, close_first];
    assert(needles[0] == 10u8);
    lemma_scan(content, s.pos, needles);
    match first_of(content.skip(s.pos), needles) {
        Some(i) => {
            let at = s.pos + i;
            if content[at] == 10u8 {
                lemma_seen_span(content, s.pos, at + 1);
            } else {
                lemma_seen_span(content, s.pos, at);
                let rest = content.skip(at);
                if starts_with(rest, r.close) {
                    lemma_delimiter_span(content, at, r.close);
                } else if starts_with(rest, r.open) {
                    lemma_delimiter_span(content, at, r.open);
                } else {
                    lemma_seen_span(content, s.pos, at + 1);
                }
            }
        },
        None => {
            lemma_tail(content, s.pos);
        },
    }
}

proof fn lemma_step_flat_block(content: Seq<u8>, lang: LanguageView, s: ParserView, region: usize)
    requires
        line_language(lang),
        opens_no_child(content, lang),
        conserving(content, lang, s),
        0 <= s.pos < content.len(),
        s.parse matches ParseState::BlockComment { region: reg, .. } && reg == region,
    ensures
        step_ok(content, lang, s, step_flat_block_spec(content, lang, s, region)),
{
    let r = lang.regions[region as int];
    assert(!(r.kind is Child));
    assert(plain_region(r));
    let close_first = first_byte_or(r.close, 42u8);
    let needles = seq![10u8, close_first];
    assert(needles[0] == 10u8);
    lemma_scan(content, s.pos, needles);
    match first_of(content.skip(s.pos), needles) {
        Some(i) => {
            let at = s.pos + i;
            if content[at] == 10u8 {
                lemma_seen_span(content, s.pos, at + 1);
            } else {
                lemma_seen_span(content, s.pos, at);
                let rest = content.skip(at);
                if starts_with(rest, r.close) {
                    lemma_delimiter_span(content, at, r.close);
                } else {
                    lemma_seen_span(content, s.pos, at + 1);
                }
            }
        },
        None => {
            lemma_tail(content, s.pos);
        },
    }
}

proof fn lemma_step_string(content: Seq<u8>, lang: LanguageView, s: ParserView, region: usize)
    requires
        line_language(lang),
        opens_no_child(content, lang),
        conserving(content, lang, s),
        0 <= s.pos < content.len(),
        s.parse == (ParseState::InString { region }),
    ensures
        step_ok(content, lang, s, step_in_string_spec(content, lang, s, region)),
{
    let r = lang.regions[region as int];
    assert(!(r.kind is Child));
    assert(plain_region(r));
    let close_first = first_byte_or(r.close, 34u8);
    let needles = if string_escape(r) {
        seq![10u8, close_first, 92u8]
    } else {
        seq![10u8, close_first]
    };
    assert(needles[0] == 10u8);
    lemma_scan(content, s.pos, needles);
    match first_of(content.skip(s.pos), needles) {
        Some(i) => {
            let at = s.pos + i;
            if content[at] == 10u8 {
                lemma_seen_span(content, s.pos, at + 1);
            } else if content[at] == 92u8 {
                if at + 1 < content.len() && content[at + 1] == 10u8 {
                    lemma_seen_span(content, s.pos, at + 2);
                } else if at + 1 < content.len() {
                    lemma_seen_span(content, s.pos, at + 2);
                } else {
                    lemma_seen_span(content, s.pos, at + 1);
                }
            } else {
                lemma_seen_span(content, s.pos, at);
                let rest = content.skip(at);
                if starts_with(rest, r.close) {
                    lemma_delimiter_span(content, at, r.close);
                } else {
                    lemma_seen_span(content, s.pos, at + 1);
                }
            }
        },
        None => {
            lemma_tail(content, s.pos);
        },
    }
}

proof fn lemma_step_token(content: Seq<u8>, lang: LanguageView, s0: ParserView, s: ParserView)
    requires
        line_language(lang),
        opens_no_child(content, lang),
        conserving(content, lang, s0),
        s0.parse == ParseState::Normal,
        0 <= s0.pos <= s.pos < content.len(),
        s == (ParserView { line_type: s.line_type, pos: s.pos, ..s0 }),
        seen(content, s.pos) == seen(content, s0.pos),
        lang.interest_bytes.contains(content[s.pos]),
        content[s.pos] != 10u8,
    ensures
        step_ok(content, lang, s0, step_token_spec(content, lang, s)),
{
    let rest = content.skip(s.pos);
    let regions = lang.regions;
    lemma_best_region_bounds(rest, regions, regions.len() as int);
    let k = choose|k: int| 0 <= k < lang.interest_bytes.len() && lang.interest_bytes[k] == content[s.pos];
    assert(is_non_ws(lang.interest_bytes[k]));
    match best_region(rest, regions, regions.len() as int) {
        Some(i) => {
            assert(opens_here(rest, regions[i]));
            assert(!(regions[i].kind is Child));
            assert(plain_region(regions[i]));
            lemma_delimiter_span(content, s.pos, regions[i].open);
        },
        None => {
            lemma_seen_span(content, s.pos, s.pos + 1);
        },
    }
}

proof fn lemma_step_normal(content: Seq<u8>, lang: LanguageView, s: ParserView)
    requires
        line_language(lang),
        opens_no_child(content, lang),
        conserving(content, lang, s),
        0 <= s.pos < content.len(),
        s.parse == ParseState::Normal,
    ensures
        step_ok(content, lang, s, step_normal_spec(content, lang, s)),
{
    let bytes = content.skip(s.pos);
    lemma_scan(content, s.pos, lang.interest_bytes);
    match first_of(bytes, lang.interest_bytes) {
        Some(i) => {
            let at = s.pos + i;
            if content[at] == 10u8 {
                lemma_seen_span(content, s.pos, at + 1);
            } else {
                lemma_seen_span(content, s.pos, at);
                let dc = lang.default_mode == crate::engine::language::DefaultMode::Comment;
                let t = if i > 0 {
                    classify_prefix_spec(
                        bytes.take(i),
                        s.line_type,
                        s.block_started_this_line,
                        s.close_line_is_code,
                        dc,
                    )
                } else {
                    s.line_type
                };
                lemma_step_token(content, lang, s, ParserView { line_type: t, pos: at, ..s });
            }
        },
        None => {
            lemma_tail(content, s.pos);
        },
    }
}

proof fn lemma_step(content: Seq<u8>, lang: LanguageView, s: ParserView)
    requires
        line_language(lang),
        opens_no_child(content, lang),
        conserving(content, lang, s),
        0 <= s.pos < content.len(),
    ensures
        step_ok(content, lang, s, step_spec(content, lang, s)),
{
    match s.parse {
        ParseState::LineComment => lemma_step_line_comment(content, lang, s),
        ParseState::BlockComment { depth, region } => {
            if comment_flags(lang.regions[region as int]).0 {
                lemma_step_nested_block(content, lang, s, depth, region);
            } else {
                lemma_step_flat_block(content, lang, s, region);
            }
        },
        ParseState::InString { region } => lemma_step_string(content, lang, s, region),
        ParseState::InChild { .. } => {},
        ParseState::Normal => lemma_step_normal(content, lang, s),
    }
}

proof fn lemma_run(content: Seq<u8>, lang: LanguageView, s: ParserView)
    requires
        line_language(lang),
        opens_no_child(content, lang),
        conserving(content, lang, s),
        content.len() > 0,
    ensures
        counts_total(run_spec(content, lang, s).counts) == line_count(content),
        run_spec(content, lang, s).children == s.children,
    decreases run_measure(content.len() as int, s),
{
    if s.pos < content.len() {
        lemma_step(content, lang, s);
        let (s2, o) = step_spec(content, lang, s);
        match o {
            Outcome::Continue => {
                lemma_run(content, lang, s2);
                assert(run_spec(content, lang, s) == run_spec(content, lang, s2));
            },
            _ => {},
        }
    } else {
        assert(content.take(content.len() as int) =~= content);
        assert(seen(content, s.pos) == newlines(content));
        assert(run_spec(content, lang, s) == finish_spec(content, lang, s));
        if content.last() != 10u8 {
            assert(!at_line_start(content, s.pos));
            assert(s.line_type != LineType::Blank);
        }
    }
}

/// Counting a file that does not begin with a documentation block and in
/// which no embedded-language region opens counts each line once.
proof fn lemma_no_doc_conserves(content: Seq<u8>, lang: LanguageView)
    requires
        line_language(lang),
        opens_no_child(content, lang),
        starts_without_doc(content, lang),
    ensures
        counts_total(count_file_spec(content, lang).counts) == line_count(content),
        count_file_spec(content, lang).children.len() == 0,
{
    if content.len() > 0 {
        let s = parser_init(seq![]);
        assert(content.take(0) =~= Seq::<u8>::empty());
        lemma_run(content, lang, s);
    }
}

proof fn lemma_newlines_concat(a: Seq<u8>, b: Seq<u8>)
    ensures
        newlines(a + b) == newlines(a) + newlines(b),
    decreases b.len(),
{
    if b.len() == 0 {
        assert(a + b =~= a);
    } else {
        assert((a + b).drop_last() =~= a + b.drop_last());
        lemma_newlines_concat(a, b.drop_last());
    }
}

proof fn lemma_newlines_none(s: Seq<u8>)
    requires
        forall|k: int| 0 <= k < s.len() ==> #[trigger] s[k] != 10u8,
    ensures
        newlines(s) == 0,
    decreases s.len(),
{
    if s.len() > 0 {
        let t = s.drop_last();
        assert forall|k: int| 0 <= k < t.len() implies #[trigger] t[k] != 10u8 by {
            assert(t[k] == s[k]);
        }
        lemma_newlines_none(t);
    }
}

/// Stripping a prefix from a line without newlines leaves no newline.
proof fn lemma_strip_keeps_no_newline(line: Seq<u8>, prefixes: Seq<Seq<u8>>)
    requires
        forall|k: int| 0 <= k < line.len() ==> #[trigger] line[k] != 10u8,
    ensures
        strip_any_prefix(line, prefixes) matches Some(body) ==> forall|k: int|
            0 <= k < body.len() ==> #[trigger] body[k] != 10u8,
    decreases prefixes.len(),
{
    if prefixes.len() > 0 {
        if starts_with(line, prefixes[0]) {
            let body = line.skip(prefixes[0].len() as int);
            assert forall|k: int| 0 <= k < body.len() implies #[trigger] body[k] != 10u8 by {
                assert(body[k] == line[k + prefixes[0].len()]);
            }
        } else {
            lemma_strip_keeps_no_newline(line, prefixes.drop_first());
        }
    }
}

/// The lines from `pos` on: the first, and those after it.
proof fn lemma_first_line(content: Seq<u8>, pos: int)
    requires
        0 <= pos < content.len(),
    ensures
        ({
            let e = line_end(content.skip(pos));
            let next = if pos + e < content.len() {
                pos + e + 1
            } else {
                pos + e
            };
            &&& 0 <= e <= content.len() - pos
            &&& forall|k: int| pos <= k < pos + e ==> #[trigger] content[k] != 10u8
            &&& line_count(content.skip(pos)) == 1 + line_count(content.skip(next))
        }),
{
    let c = content.skip(pos);
    lemma_first_of(c, seq![10u8]);
    assert(seq![10u8][0] == 10u8);
    let e = line_end(c);
    assert forall|k: int| pos <= k < pos + e implies #[trigger] content[k] != 10u8 by {
        assert(c[k - pos] == content[k]);
        if content[k] == 10u8 {
            assert(seq![10u8].contains(c[k - pos]));
        }
    }
    let head = c.take(e);
    assert forall|k: int| 0 <= k < head.len() implies #[trigger] head[k] != 10u8 by {
        assert(head[k] == content[pos + k]);
    }
    lemma_newlines_none(head);
    if e < c.len() {
        assert(seq![10u8].contains(c[e]));
        let first = c.take(e + 1);
        assert(first.drop_last() =~= head);
        assert(first.last() == 10u8);
        let rest = c.skip(e + 1);
        assert(c =~= first + rest);
        assert(content.skip(pos + e + 1) =~= rest);
        lemma_newlines_concat(first, rest);
        if rest.len() > 0 {
            assert(c.last() == rest.last());
        }
    } else {
        assert(head =~= c);
        assert(content.skip(pos + e) =~= Seq::<u8>::empty());
    }
}

/// A leading documentation block spans whole lines: the lines from `pos` are
/// the lines of the block's text and those after the block, and the text ends
/// with a newline.
proof fn lemma_doc_lines(content: Seq<u8>, prefixes: Seq<Seq<u8>>, pos: int)
    requires
        0 <= pos <= content.len(),
    ensures
        line_count(doc_block(content, prefixes, pos).0) == newlines(doc_block(content, prefixes, pos).0),
        line_count(content.skip(pos)) == newlines(doc_block(content, prefixes, pos).0) + line_count(
            content.skip(doc_block(content, prefixes, pos).1),
        ),
    decreases content.len() - pos,
{
    if 0 <= pos < content.len() {
        let end = pos + line_end(content.skip(pos));
        let line = content.subrange(pos, end);
        lemma_first_line(content, pos);
        match strip_any_prefix(line, prefixes) {
            None => {},
            Some(body) => {
                let text = if body.len() > 0 && body[0] == 32u8 {
                    body.skip(1)
                } else {
                    body
                };
                let next = if end < content.len() {
                    end + 1
                } else {
                    end
                };
                if pos < next <= content.len() {
                    assert forall|k: int| 0 <= k < line.len() implies #[trigger] line[k] != 10u8 by {
                        assert(line[k] == content[pos + k]);
                    }
                    lemma_strip_keeps_no_newline(line, prefixes);
                    assert forall|k: int| 0 <= k < text.len() implies #[trigger] text[k] != 10u8 by {
                        if body.len() > 0 && body[0] == 32u8 {
                            assert(text[k] == body[k + 1]);
                        }
                    }
                    lemma_newlines_none(text);
                    lemma_doc_lines(content, prefixes, next);
                    let rest = doc_block(content, prefixes, next);
                    let nl: Seq<u8> = seq![10u8];
                    assert(nl.drop_last() =~= Seq::<u8>::empty());
                    lemma_newlines_concat(text, nl);
                    lemma_newlines_concat(text + nl, rest.0);
                    let d = text + nl + rest.0;
                    if rest.0.len() > 0 {
                        assert(d.last() == rest.0.last());
                    } else {
                        assert(d =~= text + nl);
                        assert(d.last() == 10u8);
                    }
                    assert(newlines(nl.drop_last()) == 0);
                    assert(nl.last() == 10u8);
                    assert(newlines(nl) == 1);
                    assert(newlines(d) == 1 + newlines(rest.0));
                    assert(doc_block(content, prefixes, pos) == (d, rest.1));
                    assert(line_count(content.skip(pos)) == 1 + line_count(content.skip(next)));
                }
            },
        }
    }
}

/// The files on which every line is counted exactly once: those of a line
/// language in which no embedded-language region opens, except that a leading
/// documentation block (counted as Markdown) may be present, provided no
/// Markdown fence opens in its text.
pub open spec fn counts_each_line(content: Seq<u8>, lang: LanguageView) -> bool {
    &&& line_language(lang)
    &&& prefixes_nonempty(lang)
    &&& if lang.leading_doc_prefixes.len() > 0 && doc_block(content, lang.leading_doc_prefixes, 0).0.len()
        > 0 {
        let doc = doc_block(content, lang.leading_doc_prefixes, 0);
        &&& opens_no_child(doc.0, language_view(MARKDOWN as int))
        &&& opens_no_child(content.skip(doc.1), lang)
    } else {
        opens_no_child(content, lang)
    }
}

/// Law: every line of a file is counted exactly once, as code, comment or
/// blank, by the file itself or by a child block (one line per newline, and
/// one for a last line that no newline ends), on the files of
/// [`counts_each_line`].
pub proof fn lemma_lines_conserved(content: Seq<u8>, lang: LanguageView)
    requires
        counts_each_line(content, lang),
    ensures
        grand_total(count_file_spec(content, lang)) == line_count(content),
{
    let prefixes = lang.leading_doc_prefixes;
    let doc = if prefixes.len() > 0 {
        doc_block(content, prefixes, 0)
    } else {
        (seq![], 0)
    };
    if prefixes.len() > 0 && doc.0.len() > 0 {
        lemma_doc_block_len(content, prefixes, 0);
        lemma_doc_lines(content, prefixes, 0);
        assert(content.skip(0) =~= content);
        lemma_registry_lines(MARKDOWN as int);
        lemma_registry_prefixes(MARKDOWN as int);
        let md_lang = language_view(MARKDOWN as int);
        assert(md_lang.leading_doc_prefixes.len() == 0);
        lemma_no_doc_conserves(doc.0, md_lang);
        let md = count_file_spec(doc.0, md_lang);
        assert(children_sum(md.children) == zero_counts_view());
        let children0 = seq![(MARKDOWN, aggregate(md))];
        assert(children0.drop_last() =~= Seq::<(usize, Counts)>::empty());
        assert(children_total(children0.drop_last()) == 0);
        assert(counts_total(aggregate(md)) == counts_total(md.counts));
        assert(children_total(children0) == line_count(doc.0));
        let rest = content.skip(doc.1);
        if rest.len() > 0 {
            let s = parser_init(children0);
            assert(rest.take(0) =~= Seq::<u8>::empty());
            lemma_run(rest, lang, s);
        }
    } else {
        lemma_no_doc_conserves(content, lang);
    }
}

/// A state of the classifier on a text that has counted no code and is not
/// in code.
spec fn prose_state(s: ParserView) -> bool {
    &&& s.parse == ParseState::Normal
    &&& s.counts.code == 0
    &&& s.line_type != LineType::Code
    &&& !s.block_started_this_line
    &&& !s.close_line_is_code
}

proof fn lemma_prose_run(content: Seq<u8>, s: ParserView)
    requires
        prose_state(s),
        s.pos >= 0,
    ensures
        run_spec(content, crate::engine::language::plain_text_view(), s).counts.code == 0,
    decreases run_measure(content.len() as int, s),
{
    let lang = crate::engine::language::plain_text_view();
    assert(lang.default_mode == crate::engine::language::DefaultMode::Comment);
    assert(lang.interest_bytes == seq![10u8]);
    assert(lang.regions.len() == 0);
    if s.pos < content.len() {
        let bytes = content.skip(s.pos);
        lemma_first_of(bytes, lang.interest_bytes);
        assert(step_spec(content, lang, s) == step_normal_spec(content, lang, s));
        match first_of(bytes, lang.interest_bytes) {
            Some(i) => {
                assert(lang.interest_bytes.contains(bytes[i]));
                assert(bytes[i] == 10u8);
                let (s2, o) = step_spec(content, lang, s);
                assert(prose_state(s2));
                assert(o == Outcome::Continue);
                if run_measure(content.len() as int, s2) < run_measure(content.len() as int, s) {
                    lemma_prose_run(content, s2);
                }
                assert(run_spec(content, lang, s).counts.code == 0);
            },
            None => {
                let t = classify_prefix_spec(bytes, s.line_type, false, false, true);
                assert(t != LineType::Code);
                assert(run_spec(content, lang, s).counts.code == 0);
            },
        }
    } else {
        assert(run_spec(content, lang, s) == finish_spec(content, lang, s));
        assert(run_spec(content, lang, s).counts.code == 0);
    }
}

/// Law: a plain text file has no code lines: each of its lines is a comment
/// (when it holds anything but whitespace) or blank.
pub proof fn lemma_plain_text_is_prose(content: Seq<u8>)
    ensures
        count_file_spec(content, crate::engine::language::plain_text_view()).counts.code == 0,
{
    if content.len() > 0 {
        lemma_prose_run(content, parser_init(seq![]));
    }
}

/// Law: in a line language without embedded languages or documentation
/// prefixes, every line of every file is counted exactly once, as code, comment
/// or blank, by the file itself, which has no child blocks.
pub proof fn lemma_each_line_once(content: Seq<u8>, lang: LanguageView)
    requires
        line_language(lang),
        forall|i: int| 0 <= i < lang.regions.len() ==> !(#[trigger] lang.regions[i].kind is Child),
        lang.leading_doc_prefixes.len() == 0,
    ensures
        counts_total(count_file_spec(content, lang).counts) == line_count(content),
        count_file_spec(content, lang).children.len() == 0,
{
    lemma_no_doc_conserves(content, lang);
}

/// A byte that is text on a line: neither whitespace nor a newline.
pub open spec fn is_text_byte(b: u8) -> bool {
    b != 32 && b != 9 && b != 13 && b != 10
}

proof fn lemma_pure_code_counts(b: Seq<u8>)
    ensures
        pure_code_counts(b).comment == 0,
        pure_code_counts(b).code + pure_code_counts(b).blank == line_count(b),
        (forall|k: int| 0 <= k < b.len() ==> !is_text_byte(#[trigger] b[k])) ==> pure_code_counts(b).code
            == 0,
        (exists|k: int| 0 <= k < b.len() && is_text_byte(#[trigger] b[k])) ==> pure_code_counts(b).code
            >= 1,
    decreases b.len(),
{
    if b.len() > 0 {
        lemma_first_of(b, seq![10u8]);
        match first_of(b, seq![10u8]) {
            Some(i) => {
                let head = b.take(i);
                let rest = b.skip(i + 1);
                assert(b =~= head + seq![10u8] + rest);
                assert forall|k: int| 0 <= k < head.len() implies #[trigger] head[k] != 10u8 by {
                    assert(head[k] == b[k]);
                    assert(!seq![10u8].contains(b[k]));
                }
                assert(seq![10u8].contains(b[i]));
                lemma_newlines_none(head);
                lemma_newlines_concat(head, seq![10u8]);
                lemma_newlines_concat(head + seq![10u8], rest);
                assert(newlines(seq![10u8]) == 1) by {
                    let one = seq![10u8];
                    assert(one.drop_last() =~= Seq::<u8>::empty());
                    assert(newlines(Seq::<u8>::empty()) == 0);
                    assert(one.last() == 10u8);
                    assert(newlines(one) == newlines(one.drop_last()) + 1);
                }
                if rest.len() > 0 {
                    assert(b.last() == rest.last());
                } else {
                    assert(b.last() == 10u8);
                }
                lemma_pure_code_counts(rest);
                if forall|k: int| 0 <= k < b.len() ==> !is_text_byte(#[trigger] b[k]) {
                    assert forall|k: int| 0 <= k < rest.len() implies !is_text_byte(#[trigger] rest[k]) by {
                        assert(rest[k] == b[k + i + 1]);
                    }
                    assert(!has_non_ws(head)) by {
                        assert forall|k: int| 0 <= k < head.len() implies !is_non_ws(#[trigger] head[k]) by {
                            assert(head[k] == b[k]);
                            assert(!is_text_byte(b[k]));
                        }
                    }
                }
                if exists|k: int| 0 <= k < b.len() && is_text_byte(#[trigger] b[k]) {
                    let k = choose|k: int| 0 <= k < b.len() && is_text_byte(#[trigger] b[k]);
                    if k < i {
                        assert(head[k] == b[k]);
                        assert(is_non_ws(head[k]));
                        assert(has_non_ws(head));
                    } else {
                        assert(k != i);
                        assert(rest[k - i - 1] == b[k]);
                        assert(is_text_byte(rest[k - i - 1]));
                    }
                }
            },
            None => {
                assert forall|k: int| 0 <= k < b.len() implies #[trigger] b[k] != 10u8 by {
                    assert(!seq![10u8].contains(b[k]));
                }
                lemma_newlines_none(b);
                assert(b.last() == b[b.len() - 1]);
                if forall|k: int| 0 <= k < b.len() ==> !is_text_byte(#[trigger] b[k]) {
                    assert forall|k: int| 0 <= k < b.len() implies !is_non_ws(#[trigger] b[k]) by {
                        assert(!is_text_byte(b[k]));
                    }
                }
                if exists|k: int| 0 <= k < b.len() && is_text_byte(#[trigger] b[k]) {
                    let k = choose|k: int| 0 <= k < b.len() && is_text_byte(#[trigger] b[k]);
                    assert(is_non_ws(b[k]));
                }
            },
        }
    }
}

/// Law: the text of a child block whose language is unknown is counted as
/// lines of the file itself: each of its lines adds one code or blank line,
/// none is a comment, and no child block is added; text of only whitespace and
/// newlines adds no code line, and text with any other byte adds at least one.
pub proof fn lemma_unknown_child_is_code(counts: Counts, children: Seq<(usize, Counts)>, buf: Seq<u8>)
    ensures
        ({
            let r = flush_child_spec(counts, children, None, buf);
            &&& r.1 == children
            &&& r.0.comment == counts.comment
            &&& r.0.code >= counts.code
            &&& r.0.blank >= counts.blank
            &&& r.0.code + r.0.blank == counts.code + counts.blank + line_count(buf)
            &&& (forall|k: int| 0 <= k < buf.len() ==> !is_text_byte(#[trigger] buf[k])) ==> r.0.code
                == counts.code
            &&& (exists|k: int| 0 <= k < buf.len() && is_text_byte(#[trigger] buf[k])) ==> r.0.code
                > counts.code
        }),
{
    lemma_pure_code_counts(buf);
}

/// Law: in C, a line that opens and closes a block comment and then holds
/// code is a code line. For every comment text `body` (no newline, no `*`) and
/// every code `code` (a letter, digit or underscore, and no newline, quote or
/// slash), the line `/*body*/code` is counted as one code line and nothing
/// else.
pub proof fn lemma_c_comment_then_code(body: Seq<u8>, code: Seq<u8>)
    requires
        forall|k: int| 0 <= k < body.len() ==> #[trigger] body[k] != 10u8 && body[k] != 42u8,
        forall|k: int| 0 <= k < code.len() ==> #[trigger] code[k] != 10u8 && code[k] != 34u8
            && code[k] != 47u8,
        has_word_byte(code),
    ensures
        count_file_spec(seq![47u8, 42u8] + body + seq![42u8, 47u8] + code + seq![10u8], c_view())
            == (FileResultView { counts: Counts { code: 1, comment: 0, blank: 0 }, children: seq![] }),
{
    let lang = c_view();
    let content = seq![47u8, 42u8] + body + seq![42u8, 47u8] + code + seq![10u8];
    let n = body.len() as int;
    let m = code.len() as int;
    let len = content.len() as int;
    assert(len == n + m + 5);
    assert(content[0] == 47u8 && content[1] == 42u8);
    assert forall|k: int| 0 <= k < n implies content[2 + k] == body[k] by {}
    assert(content[2 + n] == 42u8 && content[3 + n] == 47u8);
    assert forall|k: int| 0 <= k < m implies content[4 + n + k] == code[k] by {}
    assert(content[4 + n + m] == 10u8);
    let interest = lang.interest_bytes;
    lemma_contains3(interest, 10u8, 34u8, 47u8);
    let s0 = parser_init(seq![]);
    // The block comment opens at the start.
    lemma_first_of(content.skip(0), interest);
    assert(content.skip(0) =~= content);
    assert(is_first_of(content, interest, Some(0)));
    let regions = lang.regions;
    assert(!opens_here(content, regions[0])) by {
        if starts_with(content, regions[0].open) {
            assert(content.take(2)[1] == content[1]);
        }
    }
    assert(content.take(2) =~= seq![47u8, 42u8]);
    assert(opens_here(content, regions[1]));
    assert(!opens_here(content, regions[2]));
    reveal_with_fuel(best_region, 4);
    assert(best_region(content, regions, 3) == Some(1int));
    assert(match_token_spec(content, regions) == (TokenMatch::BlockComment { region: 1 }, 2int));
    let s1 = ParserView {
        line_type: LineType::Comment,
        block_started_this_line: true,
        close_line_is_code: false,
        parse: ParseState::BlockComment { depth: 1, region: 1 },
        pos: 2,
        ..s0
    };
    assert(step_spec(content, lang, s0) == (s1, Outcome::Continue));
    // The comment text runs to the closing delimiter.
    let b1 = content.skip(2);
    lemma_contains2(seq![10u8, 42u8], 10u8, 42u8);
    assert forall|k: int| 0 <= k < n implies b1[k] == body[k] by {}
    assert(b1[n] == 42u8);
    assert(is_first_of(b1, seq![10u8, 42u8], Some(n)));
    lemma_first_of(b1, seq![10u8, 42u8]);
    assert(content.skip(2 + n).take(2) =~= seq![42u8, 47u8]);
    let s2 = ParserView { parse: ParseState::Normal, pos: 4 + n, ..s1 };
    assert(step_spec(content, lang, s1) == (s2, Outcome::Continue));
    // The code runs to the newline, and the line is code.
    let b2 = content.skip(4 + n);
    assert forall|k: int| 0 <= k < m implies b2[k] == code[k] by {}
    assert(b2[m] == 10u8);
    assert(is_first_of(b2, interest, Some(m)));
    lemma_first_of(b2, interest);
    let w = choose|k: int| 0 <= k < code.len() && super::classify::is_word_byte(#[trigger] code[k]);
    assert(m > 0);
    assert(b2.take(m) =~= code);
    assert(classify_prefix_spec(code, LineType::Comment, true, false, false) == LineType::Code);
    let s3 = ParserView {
        counts: Counts { code: 1, comment: 0, blank: 0 },
        pos: len,
        ..reset_line(s2)
    };
    assert(step_spec(content, lang, s2) == (s3, Outcome::Continue));
    assert(run_spec(content, lang, s3) == finish_spec(content, lang, s3));
    assert(content.last() == 10u8);
    assert(run_spec(content, lang, s2) == run_spec(content, lang, s3));
    assert(run_spec(content, lang, s1) == run_spec(content, lang, s2));
    assert(run_spec(content, lang, s0) == run_spec(content, lang, s1));
}

/// A sequence none of whose bytes is a newline is free of newlines.
pub proof fn lemma_newline_free(s: Seq<u8>)
    requires
        forall|k: int| 0 <= k < s.len() ==> #[trigger] s[k] != 10u8,
    ensures
        free_of_newline(s),
    decreases s.len(),
{
    if s.len() > 0 {
        let t = s.drop_first();
        assert forall|k: int| 0 <= k < t.len() implies #[trigger] t[k] != 10u8 by {
            assert(t[k] == s[k + 1]);
        }
        lemma_newline_free(t);
    }
}

/// A line language without embedded languages or documentation blocks counts
/// each line of every file.
pub proof fn lemma_plain_counts_each_line(content: Seq<u8>, lang: LanguageView)
    requires
        line_language(lang),
        forall|i: int| 0 <= i < lang.regions.len() ==> !(#[trigger] lang.regions[i].kind is Child),
        lang.leading_doc_prefixes.len() == 0,
    ensures
        counts_each_line(content, lang),
{
}

} // verus!
