//! The meaning of the line classifier, as spec functions over byte sequences.
//!
//! The classifier is a state machine: [`step_spec`] is one transition, from a
//! parser state to the next state and an outcome, [`run_spec`] repeats it to the
//! end of the input, and [`count_file_spec`] is what counting a file yields.
use vstd::prelude::*;
use vstd::string::View as _;
use vstd::utf8::decode_utf8;
use vstd::utf8::valid_utf8;

use super::classify::classify_prefix_spec;
use super::classify::emit_counts;
use super::classify::has_non_ws;
use super::classify::is_non_ws;
use super::token::match_token_spec;
use super::token::starts_with;
use super::types::Counts;
use super::types::FileResultView;
use super::types::LineType;
use super::types::ParseState;
use super::types::TokenMatch;
use super::types::children_sum;
use super::types::counts_add;
use super::types::zero_counts_view;
use crate::engine::language::Detection;
use crate::engine::language::LanguageView;
use crate::engine::language::LANGUAGE_COUNT;
use crate::engine::language::MARKDOWN;
use crate::engine::language::RegionKind;
use crate::engine::language::RegionView;
use crate::engine::language::StructuredFormat;
use crate::engine::language::DefaultMode;
use crate::engine::language::extension_language;
use crate::engine::language::language_view;
use crate::engine::language::name_language;
use crate::engine::scanner::first_of;
use crate::engine::text::ascii_lower;
use crate::engine::text::is_ascii_ws_char;
use crate::engine::text::last_segment;
use crate::engine::text::trim;

verus! {

// ---------------------------------------------------------------------------
// Lines, plain code, and child blocks

/// Index of the first newline of `bytes`, or its length when it holds none.
pub open spec fn line_end(bytes: Seq<u8>) -> int {
    match first_of(bytes, seq![10u8]) {
        Some(i) => i,
        None => bytes.len() as int,
    }
}

/// One line counted as code when it holds anything but whitespace, else as blank.
pub open spec fn line_as_code(line: Seq<u8>) -> Counts {
    if has_non_ws(line) {
        Counts { code: 1, comment: 0, blank: 0 }
    } else {
        Counts { code: 0, comment: 0, blank: 1 }
    }
}

/// Every line of `content` counted as code or blank: the counting of a child
/// block whose language is unknown.
pub open spec fn pure_code_counts(content: Seq<u8>) -> Counts
    decreases content.len(),
{
    if content.len() == 0 {
        zero_counts_view()
    } else {
        match first_of(content, seq![10u8]) {
            Some(i) => if 0 <= i < content.len() {
                counts_add(line_as_code(content.take(i)), pure_code_counts(content.skip(i + 1)))
            } else {
                zero_counts_view()
            },
            None => line_as_code(content),
        }
    }
}

/// Index one past the last newline of `s`, or 0 when it holds none.
pub open spec fn after_last_newline(s: Seq<u8>) -> int
    decreases s.len(),
{
    if s.len() == 0 {
        0
    } else if s.last() == 10u8 {
        s.len() as int
    } else {
        after_last_newline(s.drop_last())
    }
}

/// Append the text before a closing delimiter to a child buffer; when the
/// delimiter's own line holds only indentation, that indentation is dropped.
pub open spec fn push_before_close_spec(buf: Seq<u8>, chunk: Seq<u8>) -> Seq<u8> {
    if chunk.len() == 0 {
        buf
    } else {
        let start = after_last_newline(chunk);
        if !has_non_ws(chunk.skip(start)) {
            buf + chunk.take(start)
        } else {
            buf + chunk
        }
    }
}

/// A file's own lines plus the lines of all its child blocks, field by field.
pub open spec fn aggregate(r: FileResultView) -> Counts {
    counts_add(r.counts, children_sum(r.children))
}

// ---------------------------------------------------------------------------
// Detecting the language of a child region

/// The characters that valid UTF-8 bytes encode.
pub open spec fn utf8_chars(b: Seq<u8>) -> Option<Seq<char>> {
    if valid_utf8(b) {
        Some(decode_utf8(b))
    } else {
        None
    }
}

/// The language an identifier names: an extension, a display name, or the last
/// `/`-segment of a MIME type (with or without an `x-` prefix) read as an extension.
pub open spec fn resolve_ident(ident: Seq<char>) -> Option<usize> {
    if ident.len() == 0 {
        None
    } else {
        match extension_language(ident) {
            Some(l) => Some(l),
            None => match name_language(ident) {
                Some(l) => Some(l),
                None => {
                    let tail = last_segment(ident);
                    let unprefixed = if tail.len() >= 2 && tail[0] == 'x' && tail[1] == '-' {
                        extension_language(tail.skip(2))
                    } else {
                        None
                    };
                    match unprefixed {
                        Some(l) => Some(l),
                        None => extension_language(tail),
                    }
                },
            },
        }
    }
}

/// The language a region's default language name resolves to.
pub open spec fn resolve_default(default_lang: Option<&'static str>) -> Option<usize> {
    match default_lang {
        Some(d) => resolve_ident(d@),
        None => None,
    }
}

/// Number of leading ASCII-whitespace bytes of `s`.
pub open spec fn leading_ascii_ws(s: Seq<u8>) -> nat
    decreases s.len(),
{
    if s.len() > 0 && (s[0] == 32u8 || s[0] == 9u8 || s[0] == 10u8 || s[0] == 12u8 || s[0]
        == 13u8) {
        1 + leading_ascii_ws(s.drop_first())
    } else {
        0
    }
}

/// Number of leading bytes of `s` that are not ASCII whitespace.
pub open spec fn leading_non_ascii_ws(s: Seq<u8>) -> nat
    decreases s.len(),
{
    if s.len() > 0 && !(s[0] == 32u8 || s[0] == 9u8 || s[0] == 10u8 || s[0] == 12u8 || s[0]
        == 13u8) {
        1 + leading_non_ascii_ws(s.drop_first())
    } else {
        0
    }
}

/// The identifier after an opening fence: the first word of the fence line.
pub open spec fn fence_ident(info: Seq<u8>) -> Seq<u8> {
    let rest = info.skip(leading_ascii_ws(info) as int);
    rest.take(leading_non_ascii_ws(rest) as int)
}

/// Number of leading ASCII-whitespace characters of `s`.
pub open spec fn leading_ascii_ws_chars(s: Seq<char>) -> nat
    decreases s.len(),
{
    if s.len() > 0 && is_ascii_ws_char(s[0]) {
        1 + leading_ascii_ws_chars(s.drop_first())
    } else {
        0
    }
}

/// Length of an unquoted attribute value: up to whitespace, `>` or `/`.
pub open spec fn unquoted_len(s: Seq<char>) -> nat
    decreases s.len(),
{
    if s.len() > 0 && !is_ascii_ws_char(s[0]) && s[0] != '>' && s[0] != '/' {
        1 + unquoted_len(s.drop_first())
    } else {
        0
    }
}

/// Index of the first occurrence of `c` in `s`.
pub open spec fn char_index(s: Seq<char>, c: char) -> Option<int>
    decreases s.len(),
{
    if s.len() == 0 {
        None
    } else if s[0] == c {
        Some(0)
    } else {
        match char_index(s.drop_first(), c) {
            Some(i) => Some(i + 1),
            None => None,
        }
    }
}

/// The value of attribute `attr` in a tag `h`, searching from index `idx`: the
/// first occurrence of `attr` followed by `=` gives a quoted or unquoted value.
pub open spec fn attr_value_from(h: Seq<char>, attr: Seq<char>, idx: int) -> Option<Seq<char>>
    decreases h.len() - idx,
{
    if 0 <= idx && idx + attr.len() < h.len() {
        if h.subrange(idx, idx + attr.len()) == attr {
            let k = idx + attr.len();
            let j = k + leading_ascii_ws_chars(h.skip(k));
            if j < h.len() && h[j] == '=' {
                let j2 = j + 1 + leading_ascii_ws_chars(h.skip(j + 1));
                if j2 >= h.len() {
                    None
                } else if h[j2] == '\'' || h[j2] == '"' {
                    let start = j2 + 1;
                    match char_index(h.skip(start), h[j2]) {
                        Some(off) => Some(h.subrange(start, start + off)),
                        None => None,
                    }
                } else {
                    Some(h.subrange(j2, j2 + unquoted_len(h.skip(j2))))
                }
            } else {
                attr_value_from(h, attr, idx + 1)
            }
        } else {
            attr_value_from(h, attr, idx + 1)
        }
    } else {
        None
    }
}

/// The language an attribute of a tag names, if it names one.
pub open spec fn attr_language(h: Seq<char>, attr: Seq<char>) -> Option<usize> {
    match attr_value_from(h, attr, 0) {
        Some(v) => resolve_ident(trim(v)),
        None => None,
    }
}

/// The language of a tag (e.g. `<script type="text/javascript">`): its `lang`
/// attribute, else its `type` attribute, else the region's default.
pub open spec fn tag_language(header: Seq<u8>, default_lang: Option<&'static str>) -> Option<usize> {
    match utf8_chars(header) {
        None => None,
        Some(h) => {
            let lower = ascii_lower(h);
            match attr_language(lower, seq!['l', 'a', 'n', 'g']) {
                Some(l) => Some(l),
                None => match attr_language(lower, seq!['t', 'y', 'p', 'e']) {
                    Some(l) => Some(l),
                    None => resolve_default(default_lang),
                },
            }
        },
    }
}

/// What opening a child region at `pos` finds: the child's language, how many
/// bytes after the opening delimiter belong to the delimiter line, and the type
/// of the delimiter lines.
pub open spec fn child_open_spec(
    content: Seq<u8>,
    pos: int,
    open_len: int,
    default_lang: Option<&'static str>,
    detect: Detection,
) -> (Option<usize>, int, LineType) {
    let after_open = content.skip(pos + open_len);
    match detect {
        Detection::Fixed => (resolve_default(default_lang), 0, LineType::Code),
        Detection::Fence => {
            let end = line_end(after_open);
            let ident = fence_ident(after_open.take(end));
            let detected = match utf8_chars(ident) {
                Some(c) => match resolve_ident(c) {
                    Some(l) => Some(l),
                    None => resolve_default(default_lang),
                },
                None => resolve_default(default_lang),
            };
            let consume = if end < after_open.len() {
                end + 1
            } else {
                end
            };
            (detected, consume, LineType::Comment)
        },
        Detection::Tag => match first_of(after_open, seq![62u8]) {
            Some(gt) => (
                tag_language(content.subrange(pos, pos + open_len + gt + 1), default_lang),
                gt + 1,
                LineType::Code,
            ),
            None => (resolve_default(default_lang), 0, LineType::Code),
        },
    }
}

// ---------------------------------------------------------------------------
// Leading documentation blocks

/// The rest of `line` after the first prefix of `prefixes` that starts it.
pub open spec fn strip_any_prefix(line: Seq<u8>, prefixes: Seq<Seq<u8>>) -> Option<Seq<u8>>
    decreases prefixes.len(),
{
    if prefixes.len() == 0 {
        None
    } else if starts_with(line, prefixes[0]) {
        Some(line.skip(prefixes[0].len() as int))
    } else {
        strip_any_prefix(line, prefixes.drop_first())
    }
}

/// The documentation block that starts at `pos`: the text of consecutive lines
/// that start with a prefix (without the prefix and one following space), each
/// ended by a newline, and the position after the block.
pub open spec fn doc_block(content: Seq<u8>, prefixes: Seq<Seq<u8>>, pos: int) -> (Seq<u8>, int)
    decreases content.len() - pos,
{
    if 0 <= pos < content.len() {
        let end = pos + line_end(content.skip(pos));
        let line = content.subrange(pos, end);
        match strip_any_prefix(line, prefixes) {
            None => (seq![], pos),
            Some(body) => {
                let text = if body.len() > 0 && body[0] == 32u8 {
                    body.skip(1)
                } else {
                    body
                };
                let next = if end < content.len() {
                    end + 1
                } else {
                    end
                };
                if pos < next <= content.len() {
                    let rest = doc_block(content, prefixes, next);
                    (text + seq![10u8] + rest.0, rest.1)
                } else {
                    (seq![], pos)
                }
            },
        }
    } else {
        (seq![], pos)
    }
}

// ---------------------------------------------------------------------------
// The parser state machine

/// The state of the line classifier.
pub struct ParserView {
    pub counts: Counts,
    pub children: Seq<(usize, Counts)>,
    pub parse: ParseState,
    pub line_type: LineType,
    pub pos: int,
    pub block_started_this_line: bool,
    pub close_line_is_code: bool,
    pub child_delimiter_line_type: LineType,
    pub child_buf: Seq<u8>,
}

/// What a step of the classifier decides.
pub enum Outcome {
    Continue,
    Break,
    Return(FileResultView),
}

/// The state at the start of a file, with the child blocks found so far.
pub open spec fn parser_init(children: Seq<(usize, Counts)>) -> ParserView {
    ParserView {
        counts: zero_counts_view(),
        children,
        parse: ParseState::Normal,
        line_type: LineType::Blank,
        pos: 0,
        block_started_this_line: false,
        close_line_is_code: false,
        child_delimiter_line_type: LineType::Code,
        child_buf: seq![],
    }
}

/// The counts and child blocks of a state.
pub open spec fn result_of(s: ParserView) -> FileResultView {
    FileResultView { counts: s.counts, children: s.children }
}

/// The state at the start of a new line outside any region.
pub open spec fn reset_line(s: ParserView) -> ParserView {
    ParserView {
        parse: ParseState::Normal,
        line_type: LineType::Blank,
        block_started_this_line: false,
        close_line_is_code: false,
        ..s
    }
}

/// Whether a comment region nests, and whether its closing line counts as code.
pub open spec fn comment_flags(r: RegionView) -> (bool, bool) {
    match r.kind {
        RegionKind::Comment { nested, close_line_is_code } => (nested, close_line_is_code),
        _ => (false, false),
    }
}

/// Whether a string region honours backslash escapes.
pub open spec fn string_escape(r: RegionView) -> bool {
    match r.kind {
        RegionKind::String { escape } => escape,
        _ => true,
    }
}

/// The default language and detection of a child region.
pub open spec fn child_info(r: RegionView) -> (Option<&'static str>, Detection) {
    match r.kind {
        RegionKind::Child { default_lang, detect } => (default_lang, detect),
        _ => (None, Detection::Fixed),
    }
}

/// First byte of `s`, or `d` when `s` is empty.
pub open spec fn first_byte_or(s: Seq<u8>, d: u8) -> u8 {
    if s.len() > 0 {
        s[0]
    } else {
        d
    }
}

/// A comment line type for a line that was blank so far.
pub open spec fn promote_blank(t: LineType) -> LineType {
    if t == LineType::Blank {
        LineType::Comment
    } else {
        t
    }
}

/// `s` with its final line counted and the result returned.
pub open spec fn emit_and_return(s: ParserView) -> (ParserView, Outcome) {
    let s2 = ParserView { counts: emit_counts(s.counts, s.line_type), ..s };
    (s2, Outcome::Return(result_of(s2)))
}

/// Inside a line comment: the comment ends at the next newline.
pub open spec fn step_line_comment_spec(content: Seq<u8>, s: ParserView) -> (ParserView, Outcome) {
    let bytes = content.skip(s.pos);
    match first_of(bytes, seq![10u8]) {
        Some(nl) => (
            ParserView {
                counts: emit_counts(s.counts, s.line_type),
                pos: s.pos + nl + 1,
                ..reset_line(s)
            },
            Outcome::Continue,
        ),
        None => emit_and_return(s),
    }
}

/// The state after a newline inside a block comment.
pub open spec fn block_newline(s: ParserView, i: int, close_is_code: bool) -> ParserView {
    ParserView {
        counts: emit_counts(s.counts, s.line_type),
        line_type: LineType::Comment,
        close_line_is_code: close_is_code,
        block_started_this_line: false,
        pos: s.pos + i + 1,
        ..s
    }
}

/// `depth + 1`, saturating at the largest `u8`.
pub open spec fn depth_inc(depth: u8) -> u8 {
    if depth == 255 {
        255
    } else {
        (depth + 1) as u8
    }
}

/// Inside a nested block comment of region `region` at nesting `depth`.
pub open spec fn step_nested_block_spec(
    content: Seq<u8>,
    lang: LanguageView,
    s: ParserView,
    depth: u8,
    region: usize,
) -> (ParserView, Outcome) {
    let r = lang.regions[region as int];
    let bytes = content.skip(s.pos);
    let open_first = first_byte_or(r.open, 47u8);
    let close_first = first_byte_or(r.close, 42u8);
    match first_of(bytes, seq![10u8, open_first, close_first]) {
        Some(i) => if bytes[i] == 10u8 {
            (block_newline(s, i, comment_flags(r).1), Outcome::Continue)
        } else {
            let rest = content.skip(s.pos + i);
            if starts_with(rest, r.close) {
                (
                    ParserView {
                        parse: if depth > 1 {
                            ParseState::BlockComment { depth: (depth - 1) as u8, region }
                        } else {
                            ParseState::Normal
                        },
                        pos: s.pos + i + r.close.len(),
                        ..s
                    },
                    Outcome::Continue,
                )
            } else if starts_with(rest, r.open) {
                (
                    ParserView {
                        parse: ParseState::BlockComment { depth: depth_inc(depth), region },
                        pos: s.pos + i + r.open.len(),
                        ..s
                    },
                    Outcome::Continue,
                )
            } else {
                (ParserView { pos: s.pos + i + 1, ..s }, Outcome::Continue)
            }
        },
        None => emit_and_return(s),
    }
}

/// Inside a block comment of region `region` that does not nest.
pub open spec fn step_flat_block_spec(
    content: Seq<u8>,
    lang: LanguageView,
    s: ParserView,
    region: usize,
) -> (ParserView, Outcome) {
    let r = lang.regions[region as int];
    let bytes = content.skip(s.pos);
    let close_first = first_byte_or(r.close, 42u8);
    match first_of(bytes, seq![10u8, close_first]) {
        Some(i) => if bytes[i] == 10u8 {
            (block_newline(s, i, comment_flags(r).1), Outcome::Continue)
        } else {
            let rest = content.skip(s.pos + i);
            if starts_with(rest, r.close) {
                (
                    ParserView { parse: ParseState::Normal, pos: s.pos + i + r.close.len(), ..s },
                    Outcome::Continue,
                )
            } else {
                (ParserView { pos: s.pos + i + 1, ..s }, Outcome::Continue)
            }
        },
        None => emit_and_return(s),
    }
}

/// The state after a newline inside a string: the line is code.
pub open spec fn string_newline(s: ParserView, next: int) -> ParserView {
    ParserView {
        counts: emit_counts(s.counts, LineType::Code),
        line_type: LineType::Code,
        block_started_this_line: false,
        close_line_is_code: false,
        pos: next,
        ..s
    }
}

/// Inside a string literal of region `region`.
pub open spec fn step_in_string_spec(
    content: Seq<u8>,
    lang: LanguageView,
    s: ParserView,
    region: usize,
) -> (ParserView, Outcome) {
    let r = lang.regions[region as int];
    let bytes = content.skip(s.pos);
    let close_first = first_byte_or(r.close, 34u8);
    let found = if string_escape(r) {
        first_of(bytes, seq![10u8, close_first, 92u8])
    } else {
        first_of(bytes, seq![10u8, close_first])
    };
    match found {
        None => {
            let s2 = ParserView { counts: Counts { code: s.counts.code + 1, ..s.counts }, ..s };
            (s2, Outcome::Return(result_of(s2)))
        },
        Some(i) => if bytes[i] == 10u8 {
            (string_newline(s, s.pos + i + 1), Outcome::Continue)
        } else if bytes[i] == 92u8 {
            if s.pos + i + 1 < content.len() && content[s.pos + i + 1] == 10u8 {
                (string_newline(s, s.pos + i + 2), Outcome::Continue)
            } else {
                (ParserView { pos: s.pos + i + 2, ..s }, Outcome::Continue)
            }
        } else {
            let rest = content.skip(s.pos + i);
            if starts_with(rest, r.close) {
                (
                    ParserView { parse: ParseState::Normal, pos: s.pos + i + r.close.len(), ..s },
                    Outcome::Continue,
                )
            } else {
                (ParserView { pos: s.pos + i + 1, ..s }, Outcome::Continue)
            }
        },
    }
}

/// The state after opening the child region `region`, whose delimiter spans
/// `open_len` bytes at the current position.
pub open spec fn open_child_spec(
    content: Seq<u8>,
    lang: LanguageView,
    s: ParserView,
    region: usize,
    open_len: int,
) -> ParserView {
    let info = child_info(lang.regions[region as int]);
    let after_open = content.skip(s.pos + open_len);
    let opened = child_open_spec(content, s.pos, open_len, info.0, info.1);
    let child = opened.0;
    let consume = opened.1;
    let delim = opened.2;
    let fence_newline = info.1 == Detection::Fence && consume > 0 && consume - 1
        < after_open.len() && after_open[consume - 1] == 10u8;
    let counts1 = if fence_newline {
        emit_counts(s.counts, delim)
    } else {
        s.counts
    };
    let type1 = if fence_newline {
        LineType::Blank
    } else {
        delim
    };
    let tag_newline = info.1 == Detection::Tag && 0 <= consume < after_open.len()
        && after_open[consume] == 10u8;
    let counts2 = if tag_newline {
        emit_counts(counts1, type1)
    } else {
        counts1
    };
    let type2 = if tag_newline {
        LineType::Blank
    } else {
        type1
    };
    let consume2 = if tag_newline {
        consume + 1
    } else {
        consume
    };
    ParserView {
        counts: counts2,
        line_type: type2,
        child_delimiter_line_type: delim,
        child_buf: seq![],
        parse: ParseState::InChild { region, child_lang: child },
        pos: s.pos + open_len + consume2,
        block_started_this_line: false,
        close_line_is_code: false,
        ..s
    }
}

/// At a token outside any region.
pub open spec fn step_token_spec(content: Seq<u8>, lang: LanguageView, s: ParserView) -> (
    ParserView,
    Outcome,
) {
    let rest = content.skip(s.pos);
    let m = match_token_spec(rest, lang.regions);
    let adv = m.1;
    match m.0 {
        TokenMatch::LineComment => (
            ParserView {
                line_type: promote_blank(s.line_type),
                parse: ParseState::LineComment,
                pos: s.pos + adv,
                ..s
            },
            Outcome::Continue,
        ),
        TokenMatch::BlockComment { region } => (
            ParserView {
                line_type: promote_blank(s.line_type),
                block_started_this_line: true,
                close_line_is_code: comment_flags(lang.regions[region as int]).1,
                parse: ParseState::BlockComment { depth: 1, region },
                pos: s.pos + adv,
                ..s
            },
            Outcome::Continue,
        ),
        TokenMatch::StringLiteral { region } => (
            ParserView {
                line_type: LineType::Code,
                parse: ParseState::InString { region },
                close_line_is_code: false,
                pos: s.pos + adv,
                ..s
            },
            Outcome::Continue,
        ),
        TokenMatch::Child { region } => (
            open_child_spec(content, lang, s, region, adv),
            Outcome::Continue,
        ),
        TokenMatch::Other => (
            ParserView {
                line_type: if s.line_type == LineType::Blank && is_non_ws(content[s.pos]) {
                    if lang.default_mode == DefaultMode::Comment {
                        LineType::Comment
                    } else {
                        LineType::Code
                    }
                } else {
                    s.line_type
                },
                pos: s.pos + adv,
                ..s
            },
            Outcome::Continue,
        ),
    }
}

/// Outside any region: classify the text up to the next interesting byte, then
/// count the line at a newline or handle the token found there.
pub open spec fn step_normal_spec(content: Seq<u8>, lang: LanguageView, s: ParserView) -> (
    ParserView,
    Outcome,
) {
    let bytes = content.skip(s.pos);
    let dc = lang.default_mode == DefaultMode::Comment;
    match first_of(bytes, lang.interest_bytes) {
        None => {
            let t = classify_prefix_spec(
                bytes,
                s.line_type,
                s.block_started_this_line,
                s.close_line_is_code,
                dc,
            );
            let counts = if bytes.len() > 0 {
                emit_counts(s.counts, t)
            } else {
                s.counts
            };
            let s2 = ParserView { counts, line_type: t, ..s };
            (s2, Outcome::Return(result_of(s2)))
        },
        Some(i) => {
            let t = if i > 0 {
                classify_prefix_spec(
                    bytes.take(i),
                    s.line_type,
                    s.block_started_this_line,
                    s.close_line_is_code,
                    dc,
                )
            } else {
                s.line_type
            };
            if bytes[i] == 10u8 {
                (
                    ParserView {
                        counts: emit_counts(s.counts, t),
                        pos: s.pos + i + 1,
                        ..reset_line(s)
                    },
                    Outcome::Continue,
                )
            } else {
                step_token_spec(content, lang, ParserView { line_type: t, pos: s.pos + i, ..s })
            }
        },
    }
}

/// Rank of a state for the termination of the classifier.
pub open spec fn state_rank(p: ParseState) -> nat {
    match p {
        ParseState::Normal => 0,
        ParseState::BlockComment { depth, .. } => 1 + depth as nat,
        _ => 1,
    }
}

/// A measure that every step of the classifier decreases.
pub open spec fn run_measure(len: int, s: ParserView) -> nat {
    (if s.pos < len {
        (len - s.pos) as nat
    } else {
        0nat
    }) * 300 + state_rank(s.parse)
}

/// Zero when a language has no leading documentation prefixes, else one.
pub open spec fn doc_rank(lang: LanguageView) -> nat {
    if lang.leading_doc_prefixes.len() > 0 {
        1
    } else {
        0
    }
}

/// Child blocks after counting the buffer of a child region of language `id`:
/// the child's own counts, then the child blocks it holds.
pub open spec fn push_child_spec(children: Seq<(usize, Counts)>, id: usize, buf: Seq<u8>) -> Seq<
    (usize, Counts),
>
    decreases buf.len(), 2nat, 0nat, 0nat,
{
    if buf.len() == 0 {
        children
    } else {
        let r = count_block_spec(buf, language_view(id as int));
        children.push((id, r.counts)) + r.children
    }
}

/// Counts and child blocks after a child region ends: a known language is
/// counted as a child block, an unknown one as code of the file itself.
pub open spec fn flush_child_spec(
    counts: Counts,
    children: Seq<(usize, Counts)>,
    child_lang: Option<usize>,
    buf: Seq<u8>,
) -> (Counts, Seq<(usize, Counts)>)
    decreases buf.len(), 2nat, 1nat, 0nat,
{
    match child_lang {
        Some(id) => (counts, push_child_spec(children, id, buf)),
        None => {
            let p = pure_code_counts(buf);
            (Counts { code: counts.code + p.code, blank: counts.blank + p.blank, ..counts }, children)
        },
    }
}

/// Inside a child region: collect its text until the closing delimiter.
pub open spec fn step_in_child_spec(
    content: Seq<u8>,
    lang: LanguageView,
    s: ParserView,
    region: usize,
    child_lang: Option<usize>,
) -> (ParserView, Outcome)
    decreases content.len(), doc_rank(lang), 2nat, 0nat,
{
    let r = lang.regions[region as int];
    let bytes = content.skip(s.pos);
    let close_first = first_byte_or(r.close, 60u8);
    match first_of(bytes, seq![10u8, close_first]) {
        Some(i) => if bytes[i] == 10u8 {
            (
                ParserView { child_buf: s.child_buf + bytes.take(i + 1), pos: s.pos + i + 1, ..s },
                Outcome::Continue,
            )
        } else {
            let rest = content.skip(s.pos + i);
            if starts_with(rest, r.close) {
                let buf = push_before_close_spec(s.child_buf, bytes.take(i));
                if buf.len() < content.len() {
                    let flushed = flush_child_spec(s.counts, s.children, child_lang, buf);
                    (
                        ParserView {
                            counts: flushed.0,
                            children: flushed.1,
                            child_buf: seq![],
                            parse: ParseState::Normal,
                            line_type: s.child_delimiter_line_type,
                            block_started_this_line: false,
                            close_line_is_code: false,
                            pos: s.pos + i + r.close.len(),
                            ..s
                        },
                        Outcome::Continue,
                    )
                } else {
                    (s, Outcome::Break)
                }
            } else {
                (
                    ParserView {
                        child_buf: s.child_buf + bytes.take(i + 1),
                        pos: s.pos + i + 1,
                        ..s
                    },
                    Outcome::Continue,
                )
            }
        },
        None => (ParserView { child_buf: s.child_buf + bytes, ..s }, Outcome::Break),
    }
}

/// One step of the classifier.
pub open spec fn step_spec(content: Seq<u8>, lang: LanguageView, s: ParserView) -> (
    ParserView,
    Outcome,
)
    decreases content.len(), doc_rank(lang), 3nat, 0nat,
{
    match s.parse {
        ParseState::LineComment => step_line_comment_spec(content, s),
        ParseState::BlockComment { depth, region } => if comment_flags(
            lang.regions[region as int],
        ).0 {
            step_nested_block_spec(content, lang, s, depth, region)
        } else {
            step_flat_block_spec(content, lang, s, region)
        },
        ParseState::InString { region } => step_in_string_spec(content, lang, s, region),
        ParseState::InChild { region, child_lang } => step_in_child_spec(
            content,
            lang,
            s,
            region,
            child_lang,
        ),
        ParseState::Normal => step_normal_spec(content, lang, s),
    }
}

/// The result at the end of the input: a child region still open is counted,
/// and a final line without newline is counted.
pub open spec fn finish_spec(content: Seq<u8>, lang: LanguageView, s: ParserView) -> FileResultView
    decreases content.len(), doc_rank(lang), 3nat, 0nat,
{
    let s1 = match s.parse {
        ParseState::InChild { child_lang, .. } => if s.child_buf.len() < content.len() {
            let flushed = flush_child_spec(s.counts, s.children, child_lang, s.child_buf);
            ParserView { counts: flushed.0, children: flushed.1, ..s }
        } else {
            s
        },
        _ => s,
    };
    let counts = if s1.line_type != LineType::Blank && (content.len() == 0 || content.last()
        != 10u8) {
        emit_counts(s1.counts, s1.line_type)
    } else {
        s1.counts
    };
    FileResultView { counts, children: s1.children }
}

/// The classifier run from state `s` to the end of the input.
pub open spec fn run_spec(content: Seq<u8>, lang: LanguageView, s: ParserView) -> FileResultView
    decreases content.len(), doc_rank(lang), 4nat, run_measure(content.len() as int, s),
{
    if s.pos < content.len() {
        let (s2, o) = step_spec(content, lang, s);
        match o {
            Outcome::Continue => if run_measure(content.len() as int, s2) < run_measure(
                content.len() as int,
                s,
            ) {
                run_spec(content, lang, s2)
            } else {
                result_of(s2)
            },
            Outcome::Break => finish_spec(content, lang, s2),
            Outcome::Return(r) => r,
        }
    } else {
        finish_spec(content, lang, s)
    }
}

/// What counting a block of text `content` as language `lang` yields, inside
/// the recursion through embedded languages: as [`count_file_spec`], except
/// that a leading documentation block is taken only when it is no longer
/// than the text, which it always is when every documentation prefix is
/// non-empty (as in every language of the library).
pub open spec fn count_block_spec(content: Seq<u8>, lang: LanguageView) -> FileResultView
    decreases content.len(), doc_rank(lang), 5nat, 0nat,
{
    if lang.structured_format == StructuredFormat::Jupyter {
        FileResultView { counts: zero_counts_view(), children: seq![] }
    } else {
        let doc = if lang.leading_doc_prefixes.len() > 0 {
            doc_block(content, lang.leading_doc_prefixes, 0)
        } else {
            (seq![], 0)
        };
        if doc.0.len() > 0 && doc.0.len() <= content.len() && 0 <= doc.1 <= content.len()
            && doc_rank(language_view(MARKDOWN as int)) == 0 {
            let md = count_block_spec(doc.0, language_view(MARKDOWN as int));
            let children0 = seq![(MARKDOWN, aggregate(md))];
            let rest = content.skip(doc.1);
            if rest.len() == 0 {
                FileResultView { counts: zero_counts_view(), children: children0 }
            } else {
                run_spec(rest, lang, parser_init(children0))
            }
        } else if content.len() == 0 {
            FileResultView { counts: zero_counts_view(), children: seq![] }
        } else {
            run_spec(content, lang, parser_init(seq![]))
        }
    }
}

/// What counting `content` as language `lang` yields: the file's own code,
/// comment and blank lines, and the lines of every embedded child block
/// (a leading documentation block first, as Markdown).
///
/// A notebook (structured format) is not text lines: it is counted from its
/// cells, and as text it counts nothing.
pub open spec fn count_file_spec(content: Seq<u8>, lang: LanguageView) -> FileResultView {
    if lang.structured_format == StructuredFormat::Jupyter {
        FileResultView { counts: zero_counts_view(), children: seq![] }
    } else {
        let doc = if lang.leading_doc_prefixes.len() > 0 {
            doc_block(content, lang.leading_doc_prefixes, 0)
        } else {
            (seq![], 0)
        };
        if doc.0.len() > 0 && 0 <= doc.1 <= content.len() {
            let md = count_block_spec(doc.0, language_view(MARKDOWN as int));
            let children0 = seq![(MARKDOWN, aggregate(md))];
            let rest = content.skip(doc.1);
            if rest.len() == 0 {
                FileResultView { counts: zero_counts_view(), children: children0 }
            } else {
                run_spec(rest, lang, parser_init(children0))
            }
        } else if content.len() == 0 {
            FileResultView { counts: zero_counts_view(), children: seq![] }
        } else {
            run_spec(content, lang, parser_init(seq![]))
        }
    }
}

// ---------------------------------------------------------------------------
// Inputs the classifier accepts

/// Largest input the classifier counts: every count stays below `u32::MAX`,
/// also for a documentation block one byte longer than the text.
pub const MAX_CONTENT_LEN: usize = 1_431_655_763;

/// Every prefix of a list is non-empty.
pub open spec fn nonempty_prefixes(prefixes: Seq<Seq<u8>>) -> bool {
    forall|i: int| 0 <= i < prefixes.len() ==> #[trigger] prefixes[i].len() > 0
}

/// Every leading documentation prefix of a language is non-empty.
pub open spec fn prefixes_nonempty(lang: LanguageView) -> bool {
    nonempty_prefixes(lang.leading_doc_prefixes)
}

/// One when some documentation prefix of a language is empty: its leading
/// documentation block can then be one byte longer than the text it is taken
/// from (a last line that no newline ends gains one).
pub open spec fn doc_slack(lang: LanguageView) -> int {
    if prefixes_nonempty(lang) {
        0
    } else {
        1
    }
}

/// Every child block names a language of the library.
pub open spec fn children_in_range(children: Seq<(usize, Counts)>) -> bool {
    forall|i: int| 0 <= i < children.len() ==> #[trigger] children[i].0 < LANGUAGE_COUNT
}

} // verus!
