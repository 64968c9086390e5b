//! Pure helpers of the classifier: plain code counting, child blocks, language
//! detection of child regions and leading documentation blocks.
use vstd::prelude::*;
use vstd::slice::slice_subrange;
use vstd::string::StringSliceAdditionalSpecFns;
use vstd::utf8::decode_utf8;
use vstd::utf8::valid_utf8;

use super::super::classify::any_non_ws;
use super::super::classify::has_non_ws;
use super::super::model::MAX_CONTENT_LEN;
use super::super::model::after_last_newline;
use super::super::model::aggregate;
use super::super::model::attr_value_from;
use super::super::model::char_index;
use super::super::model::child_open_spec;
use super::super::model::children_in_range;
use super::super::model::count_block_spec;
use super::super::model::count_file_spec;
use super::super::model::doc_rank;
use super::super::model::nonempty_prefixes;
use super::super::model::prefixes_nonempty;
use super::super::model::doc_block;
use super::super::model::fence_ident;
use super::super::model::leading_ascii_ws;
use super::super::model::leading_ascii_ws_chars;
use super::super::model::leading_non_ascii_ws;
use crate::engine::language::lemma_registry_prefixes;
use super::super::model::line_as_code;
use super::super::model::line_end;
use super::super::model::pure_code_counts;
use super::super::model::push_before_close_spec;
use super::super::model::push_child_spec;
use super::super::model::flush_child_spec;
use super::super::model::resolve_default;
use super::super::model::resolve_ident;
use super::super::model::strip_any_prefix;
use super::super::model::tag_language;
use super::super::model::unquoted_len;
use super::super::model::utf8_chars;
use super::super::token::starts_with;
use super::super::types::Counts;
use super::super::types::FileResult;
use super::super::types::FileResultView;
use super::super::types::LineCounts;
use super::super::types::LineType;
use super::super::types::children_sum;
use super::super::types::children_total;
use super::super::types::counts_add;
use super::super::types::counts_total;
use super::super::types::grand_total;
use super::super::types::lemma_children_sum_total;
use super::super::types::lemma_children_total_append;
use super::super::types::zero_counts_view;
use crate::engine::language::Detection;
use crate::engine::language::StructuredFormat;
use crate::engine::language::LANGUAGE_COUNT;
use crate::engine::language::LanguageDef;
use crate::engine::language::LanguageView;
use crate::engine::language::MARKDOWN;
use crate::engine::language::extension_id;
use crate::engine::language::language;
use crate::engine::language::language_view;
use crate::engine::language::name_id;
use crate::engine::scanner::find_newline;
use crate::engine::scanner::first_of;
use crate::engine::scanner::index_view;
use crate::engine::scanner::lemma_first_of;
use crate::engine::text::chars_of;
use crate::engine::text::is_ascii_ws_char;
use crate::engine::text::last_segment_of;
use crate::engine::text::to_ascii_lower;
use crate::engine::text::trim_chars;
use crate::engine::text::utf8_str;

verus! {

broadcast use vstd::utf8::group_utf8_lib;

/// The mathematical value of a list of child blocks.
pub open spec fn children_view(v: Seq<(usize, LineCounts)>) -> Seq<(usize, Counts)> {
    v.map_values(|c: (usize, LineCounts)| (c.0, c.1@))
}

/// The result of opening a child region.
pub struct ChildOpenResult {
    pub detected_child: Option<usize>,
    pub consume_after_open: usize,
    pub delim_line_type: LineType,
}

/// No lines at all.
pub fn zero_counts() -> (r: LineCounts)
    ensures
        r@ == zero_counts_view(),
{
    LineCounts { code: 0, comment: 0, blank: 0 }
}

/// The type every new line starts with.
pub fn default_line_type(_lang: &LanguageDef) -> (r: LineType)
    ensures
        r == LineType::Blank,
{
    LineType::Blank
}

/// Count every line of `content` as code or blank (used for child blocks of
/// unknown language).
pub fn count_pure_code(content: &[u8]) -> (r: LineCounts)
    requires
        content.len() < u32::MAX,
    ensures
        r@ == pure_code_counts(content@),
        counts_total(r@) <= content.len(),
        r@.comment == 0,
{
    let mut counts = zero_counts();
    let mut pos: usize = 0;
    assert(content@.skip(0) =~= content@);
    while pos < content.len()
        invariant
            pos <= content.len(),
            content.len() < u32::MAX,
            pure_code_counts(content@) == counts_add(counts@, pure_code_counts(content@.skip(pos as int))),
            counts_total(counts@) <= pos,
            counts@.comment == 0,
        decreases content.len() - pos,
    {
        let bytes = slice_subrange(content, pos, content.len());
        assert(bytes@ =~= content@.skip(pos as int));
        let found = find_newline(bytes);
        proof {
            lemma_first_of(bytes@, seq![10u8]);
        }
        let end = match found {
            Some(i) => pos + i,
            None => content.len(),
        };
        let line = slice_subrange(content, pos, end);
        let ghost one = line_as_code(line@);
        if any_non_ws(line) {
            counts.code = counts.code + 1;
        } else {
            counts.blank = counts.blank + 1;
        }
        proof {
            match found {
                Some(i) => {
                    assert(line@ =~= bytes@.take(i as int));
                    assert(bytes@.skip(i + 1) =~= content@.skip(end + 1));
                },
                None => {
                    assert(line@ =~= bytes@);
                    assert(content@.skip(end as int) =~= Seq::<u8>::empty());
                },
            }
        }
        pos = if end < content.len() {
            end + 1
        } else {
            end
        };
    }
    assert(content@.skip(pos as int) =~= Seq::<u8>::empty());
    counts
}

/// Append `bytes` to `buf`.
pub fn append_bytes(buf: &mut Vec<u8>, bytes: &[u8])
    ensures
        final(buf)@ == old(buf)@ + bytes@,
{
    let mut i: usize = 0;
    while i < bytes.len()
        invariant
            i <= bytes.len(),
            buf@ =~= old(buf)@ + bytes@.take(i as int),
        decreases bytes.len() - i,
    {
        buf.push(bytes[i]);
        i += 1;
    }
    assert(bytes@.take(bytes.len() as int) =~= bytes@);
}

proof fn lemma_after_last_newline(s: Seq<u8>)
    ensures
        0 <= after_last_newline(s) <= s.len(),
        forall|j: int| after_last_newline(s) <= j < s.len() ==> s[j] != 10u8,
        after_last_newline(s) > 0 ==> s[after_last_newline(s) - 1] == 10u8,
    decreases s.len(),
{
    if s.len() > 0 && s.last() != 10u8 {
        lemma_after_last_newline(s.drop_last());
        assert forall|j: int| after_last_newline(s) <= j < s.len() implies s[j] != 10u8 by {
            if j < s.len() - 1 {
                assert(s[j] == s.drop_last()[j]);
            }
        }
    }
}

/// Append the text before a closing delimiter to a child buffer, dropping the
/// indentation of the delimiter's own line.
pub fn push_child_before_close(buf: &mut Vec<u8>, chunk: &[u8])
    ensures
        final(buf)@ == push_before_close_spec(old(buf)@, chunk@),
        final(buf)@.len() <= old(buf)@.len() + chunk@.len(),
{
    if chunk.len() == 0 {
        return;
    }
    let mut start: usize = chunk.len();
    assert(chunk@.take(start as int) =~= chunk@);
    while start > 0 && chunk[start - 1] != 10u8
        invariant
            start <= chunk.len(),
            after_last_newline(chunk@) == after_last_newline(chunk@.take(start as int)),
        decreases start,
    {
        assert(chunk@.take(start as int).drop_last() =~= chunk@.take(start - 1));
        start -= 1;
    }
    proof {
        if start > 0 {
            assert(chunk@.take(start as int).last() == 10u8);
        }
        assert(after_last_newline(chunk@) == start);
    }
    let tail = slice_subrange(chunk, start, chunk.len());
    assert(tail@ =~= chunk@.skip(start as int));
    if !any_non_ws(tail) {
        let head = slice_subrange(chunk, 0, start);
        assert(head@ =~= chunk@.take(start as int));
        append_bytes(buf, head);
    } else {
        append_bytes(buf, chunk);
    }
}

/// A child buffer's result, recorded as a child block (its own child blocks follow it).
pub fn push_child_result(
    children: &mut Vec<(usize, LineCounts)>,
    child_lang: usize,
    child_buf: &[u8],
)
    requires
        child_lang < LANGUAGE_COUNT,
        child_buf.len() <= MAX_CONTENT_LEN,
    ensures
        children_view(final(children)@) == push_child_spec(
            children_view(old(children)@),
            child_lang,
            child_buf@,
        ),
        children_total(children_view(final(children)@)) <= children_total(
            children_view(old(children)@),
        ) + 3 * child_buf.len() + 1,
        children_in_range(children_view(old(children)@)) ==> children_in_range(
            children_view(final(children)@),
        ),
    decreases child_buf.len(), 2nat, 0nat, 0nat,
{
    if child_buf.len() == 0 {
        return;
    }
    let child = language(child_lang);
    proof {
        lemma_registry_prefixes(child_lang as int);
    }
    let result = match child.structured_format {
        // A notebook embedded in a text file is not read as a notebook: its block counts no lines.
        StructuredFormat::Jupyter => {
            let r = FileResult { counts: zero_counts(), children: Vec::new() };
            assert(r@.children =~= Seq::<(usize, Counts)>::empty());
            r
        },
        StructuredFormat::Text => {
            let r = super::count_file(child_buf, &child);
            proof {
                lemma_block_is_file(child_buf@, child@);
            }
            r
        },
    };
    let ghost before = children_view(children@);
    children.push((child_lang, result.counts));
    assert(children_view(children@) =~= before.push((child_lang, result.counts@)));
    let ghost mid = children_view(children@);
    let mut rest = result.children;
    children.append(&mut rest);
    proof {
        assert(children_view(children@) =~= mid + result@.children);
        lemma_children_total_append(mid, result@.children);
        assert(mid.drop_last() =~= before);
    }
}

/// Count the text of a finished child region: as a child block of its
/// language, or as code of the file itself when its language is unknown.
pub(crate) fn flush_child(
    counts: &mut LineCounts,
    children: &mut Vec<(usize, LineCounts)>,
    child_lang: Option<usize>,
    buf: &[u8],
)
    requires
        buf.len() <= MAX_CONTENT_LEN,
        child_lang matches Some(id) ==> id < LANGUAGE_COUNT,
        counts_total(old(counts)@) + children_total(children_view(old(children)@)) + 3 * buf.len()
            + 1 < u32::MAX,
    ensures
        (final(counts)@, children_view(final(children)@)) == flush_child_spec(
            old(counts)@,
            children_view(old(children)@),
            child_lang,
            buf@,
        ),
        counts_total(final(counts)@) + children_total(children_view(final(children)@))
            <= counts_total(old(counts)@) + children_total(children_view(old(children)@)) + 3
            * buf.len() + 1,
        children_in_range(children_view(old(children)@)) ==> children_in_range(
            children_view(final(children)@),
        ),
    decreases buf.len(), 2nat, 1nat, 0nat,
{
    match child_lang {
        Some(id) => {
            push_child_result(children, id, buf);
        },
        None => {
            let c = count_pure_code(buf);
            counts.code = counts.code + c.code;
            counts.blank = counts.blank + c.blank;
        },
    }
}

/// A file's own counts plus those of all its child blocks.
pub fn aggregate_counts_with_children(result: &FileResult) -> (r: LineCounts)
    requires
        grand_total(result@) < u32::MAX,
    ensures
        r@ == aggregate(result@),
{
    let mut total = result.counts;
    let mut i: usize = 0;
    let ghost ch = result@.children;
    assert(ch.take(0) =~= Seq::<(usize, Counts)>::empty());
    while i < result.children.len()
        invariant
            i <= result.children.len(),
            ch == result@.children,
            ch.len() == result.children.len(),
            total@ == counts_add(result.counts@, children_sum(ch.take(i as int))),
            grand_total(result@) < u32::MAX,
        decreases result.children.len() - i,
    {
        let c = result.children[i].1;
        assert(ch[i as int] == (result.children@[i as int].0, c@));
        assert(ch.take(i + 1).drop_last() =~= ch.take(i as int));
        proof {
            lemma_children_sum_total(ch.take(i + 1));
            lemma_children_sum_total(ch);
            assert(ch =~= ch.take(i + 1) + ch.skip(i + 1));
            lemma_children_total_append(ch.take(i + 1), ch.skip(i + 1));
        }
        total.code = total.code + c.code;
        total.comment = total.comment + c.comment;
        total.blank = total.blank + c.blank;
        i += 1;
    }
    assert(ch.take(i as int) =~= ch);
    total
}

/// Index of the first `c` in `s[from..]`, relative to `from`.
fn char_index_from(s: &Vec<char>, from: usize, c: char) -> (r: Option<usize>)
    requires
        from <= s.len(),
    ensures
        r matches Some(i) ==> from + i < s.len() && char_index(s@.skip(from as int), c) == Some(
            i as int,
        ),
        r is None ==> char_index(s@.skip(from as int), c) is None,
{
    let mut i: usize = from;
    assert(s@.skip(from as int) =~= s@.skip(from as int));
    while i < s.len()
        invariant
            from <= i <= s.len(),
            char_index(s@.skip(from as int), c) == match char_index(s@.skip(i as int), c) {
                Some(k) => Some(k + (i - from)),
                None => None,
            },
        decreases s.len() - i,
    {
        assert(s@.skip(i as int)[0] == s@[i as int]);
        if s[i] == c {
            return Some(i - from);
        }
        assert(s@.skip(i as int).drop_first() =~= s@.skip(i + 1));
        i += 1;
    }
    assert(s@.skip(i as int).len() == 0);
    None
}

/// Number of leading ASCII-whitespace characters of `s[from..]`.
fn ascii_ws_run(s: &Vec<char>, from: usize) -> (r: usize)
    requires
        from <= s.len(),
    ensures
        r == leading_ascii_ws_chars(s@.skip(from as int)),
        from + r <= s.len(),
{
    let mut i: usize = from;
    while i < s.len() && (s[i] == ' ' || s[i] == '\t' || s[i] == '\n' || s[i] == '\x0C' || s[i]
        == '\r')
        invariant
            from <= i <= s.len(),
            leading_ascii_ws_chars(s@.skip(from as int)) == (i - from) + leading_ascii_ws_chars(
                s@.skip(i as int),
            ),
        decreases s.len() - i,
    {
        assert(s@.skip(i as int)[0] == s@[i as int]);
        assert(s@.skip(i as int).drop_first() =~= s@.skip(i + 1));
        i += 1;
    }
    proof {
        if i < s.len() {
            assert(s@.skip(i as int)[0] == s@[i as int]);
        }
    }
    i - from
}

/// Length of an unquoted attribute value starting at `from`.
fn unquoted_run(s: &Vec<char>, from: usize) -> (r: usize)
    requires
        from <= s.len(),
    ensures
        r == unquoted_len(s@.skip(from as int)),
        from + r <= s.len(),
{
    let mut i: usize = from;
    while i < s.len() && !(s[i] == ' ' || s[i] == '\t' || s[i] == '\n' || s[i] == '\x0C' || s[i]
        == '\r') && s[i] != '>' && s[i] != '/'
        invariant
            from <= i <= s.len(),
            unquoted_len(s@.skip(from as int)) == (i - from) + unquoted_len(s@.skip(i as int)),
        decreases s.len() - i,
    {
        assert(s@.skip(i as int)[0] == s@[i as int]);
        assert(s@.skip(i as int).drop_first() =~= s@.skip(i + 1));
        i += 1;
    }
    proof {
        if i < s.len() {
            assert(s@.skip(i as int)[0] == s@[i as int]);
        }
    }
    i - from
}

/// The characters `s[from..to]`.
fn chars_range(s: &Vec<char>, from: usize, to: usize) -> (r: Vec<char>)
    requires
        from <= to <= s.len(),
    ensures
        r@ == s@.subrange(from as int, to as int),
{
    let mut out: Vec<char> = Vec::new();
    let mut i: usize = from;
    while i < to
        invariant
            from <= i <= to <= s.len(),
            out@ =~= s@.subrange(from as int, i as int),
        decreases to - i,
    {
        out.push(s[i]);
        i += 1;
    }
    out
}

/// Whether `attr` occurs in `s` at `idx`.
fn occurs_at(s: &Vec<char>, attr: &Vec<char>, idx: usize) -> (r: bool)
    requires
        idx + attr.len() <= s.len(),
    ensures
        r == (s@.subrange(idx as int, idx + attr.len()) == attr@),
{
    let mut k: usize = 0;
    while k < attr.len()
        invariant
            k <= attr.len(),
            idx + attr.len() <= s.len(),
            forall|m: int| 0 <= m < k ==> s@[idx + m] == attr@[m],
        decreases attr.len() - k,
    {
        if s[idx + k] != attr[k] {
            assert(s@.subrange(idx as int, idx + attr.len())[k as int] != attr@[k as int]);
            return false;
        }
        k += 1;
    }
    assert(s@.subrange(idx as int, idx + attr.len()) =~= attr@);
    true
}

/// The value of attribute `attr` in the (lower-case) tag `header`.
pub fn extract_attr_value(header: &Vec<char>, attr: &Vec<char>) -> (r: Option<Vec<char>>)
    ensures
        match attr_value_from(header@, attr@, 0) {
            Some(v) => r matches Some(x) && x@ == v,
            None => r is None,
        },
{
    let mut idx: usize = 0;
    while idx < header.len() && attr.len() < header.len() - idx
        invariant
            idx <= header.len(),
            attr_value_from(header@, attr@, 0) == attr_value_from(header@, attr@, idx as int),
        decreases header.len() - idx,
    {
        if occurs_at(header, attr, idx) {
            let k = idx + attr.len();
            let j = k + ascii_ws_run(header, k);
            if j < header.len() && header[j] == '=' {
                let j2 = j + 1 + ascii_ws_run(header, j + 1);
                if j2 >= header.len() {
                    return None;
                }
                let quote = header[j2];
                if quote == '\'' || quote == '"' {
                    let start = j2 + 1;
                    return match char_index_from(header, start, quote) {
                        Some(off) => Some(chars_range(header, start, start + off)),
                        None => None,
                    };
                }
                let n = unquoted_run(header, j2);
                return Some(chars_range(header, j2, j2 + n));
            }
        }
        idx += 1;
    }
    None
}

/// The language an identifier names: an extension, a display name, or the last
/// segment of a MIME type (with or without `x-`) read as an extension.
pub fn resolve_lang_ident(ident: &Vec<char>) -> (r: Option<usize>)
    ensures
        r == resolve_ident(ident@),
        r matches Some(id) ==> id < LANGUAGE_COUNT,
{
    if ident.len() == 0 {
        return None;
    }
    if let Some(l) = extension_id(ident) {
        return Some(l);
    }
    if let Some(l) = name_id(ident) {
        return Some(l);
    }
    let tail = last_segment_of(ident);
    if tail.len() >= 2 && tail[0] == 'x' && tail[1] == '-' {
        let unprefixed = chars_range(&tail, 2, tail.len());
        assert(unprefixed@ =~= tail@.skip(2));
        if let Some(l) = extension_id(&unprefixed) {
            return Some(l);
        }
    }
    extension_id(&tail)
}

/// The language a region's default language name resolves to.
pub fn resolve_default_lang(default_lang: Option<&'static str>) -> (r: Option<usize>)
    ensures
        r == resolve_default(default_lang),
        r matches Some(id) ==> id < LANGUAGE_COUNT,
{
    match default_lang {
        Some(d) => resolve_lang_ident(&chars_of(d)),
        None => None,
    }
}

/// The characters that valid UTF-8 bytes encode.
fn chars_of_utf8(bytes: &[u8]) -> (r: Option<Vec<char>>)
    ensures
        match utf8_chars(bytes@) {
            Some(c) => r matches Some(x) && x@ == c,
            None => r is None,
        },
{
    match utf8_str(bytes) {
        Some(s) => {
            let c = chars_of(s);
            proof {
                assert(decode_utf8(bytes@) == s@);
            }
            Some(c)
        },
        None => None,
    }
}

/// The language of an opening tag: its `lang` attribute, else its `type`
/// attribute, else the region's default language.
pub fn detect_tag_lang(header: &[u8], default_lang: Option<&'static str>) -> (r: Option<usize>)
    ensures
        r == tag_language(header@, default_lang),
        r matches Some(id) ==> id < LANGUAGE_COUNT,
{
    let chars = match chars_of_utf8(header) {
        Some(c) => c,
        None => return None,
    };
    let lower = to_ascii_lower(&chars);
    let lang_attr = vec!['l', 'a', 'n', 'g'];
    assert(lang_attr@ =~= seq!['l', 'a', 'n', 'g']);
    if let Some(v) = extract_attr_value(&lower, &lang_attr) {
        if let Some(l) = resolve_lang_ident(&trim_chars(&v)) {
            return Some(l);
        }
    }
    let type_attr = vec!['t', 'y', 'p', 'e'];
    assert(type_attr@ =~= seq!['t', 'y', 'p', 'e']);
    if let Some(v) = extract_attr_value(&lower, &type_attr) {
        if let Some(l) = resolve_lang_ident(&trim_chars(&v)) {
            return Some(l);
        }
    }
    resolve_default_lang(default_lang)
}

/// Number of leading bytes of `s[from..]` that are (or are not) ASCII whitespace.
fn ascii_ws_bytes_run(s: &[u8], from: usize, ws: bool) -> (r: usize)
    requires
        from <= s.len(),
    ensures
        ws ==> r == leading_ascii_ws(s@.skip(from as int)),
        !ws ==> r == leading_non_ascii_ws(s@.skip(from as int)),
        from + r <= s.len(),
{
    let mut i: usize = from;
    while i < s.len() && ((s[i] == 32u8 || s[i] == 9u8 || s[i] == 10u8 || s[i] == 12u8 || s[i]
        == 13u8) == ws)
        invariant
            from <= i <= s.len(),
            ws ==> leading_ascii_ws(s@.skip(from as int)) == (i - from) + leading_ascii_ws(
                s@.skip(i as int),
            ),
            !ws ==> leading_non_ascii_ws(s@.skip(from as int)) == (i - from)
                + leading_non_ascii_ws(s@.skip(i as int)),
        decreases s.len() - i,
    {
        assert(s@.skip(i as int)[0] == s@[i as int]);
        assert(s@.skip(i as int).drop_first() =~= s@.skip(i + 1));
        i += 1;
    }
    proof {
        if i < s.len() {
            assert(s@.skip(i as int)[0] == s@[i as int]);
        }
    }
    i - from
}

/// Index of the first `b` in `s`.
fn position_of(s: &[u8], b: u8) -> (r: Option<usize>)
    ensures
        index_view(r) == first_of(s@, seq![b]),
{
    let mut i: usize = 0;
    while i < s.len()
        invariant
            i <= s.len(),
            forall|j: int| 0 <= j < i ==> !seq![b].contains(#[trigger] s@[j]),
        decreases s.len() - i,
    {
        if s[i] == b {
            proof {
                lemma_first_of(s@, seq![b]);
                assert(seq![b][0] == s@[i as int]);
                assert(crate::engine::scanner::is_first_of(s@, seq![b], Some(i as int)));
            }
            return Some(i);
        }
        assert(!seq![b].contains(s@[i as int])) by {
            if seq![b].contains(s@[i as int]) {
                let k = choose|k: int| 0 <= k < 1 && seq![b][k] == s@[i as int];
            }
        }
        i += 1;
    }
    proof {
        lemma_first_of(s@, seq![b]);
        assert(crate::engine::scanner::is_first_of(s@, seq![b], None));
    }
    None
}

/// What opening a child region at `pos` finds: the child's language, how many
/// bytes after the opening delimiter belong to its line, and the type of the
/// delimiter lines.
pub fn detect_child_open(
    content: &[u8],
    pos: usize,
    open_len: usize,
    default_lang: Option<&'static str>,
    detect: Detection,
) -> (r: ChildOpenResult)
    requires
        pos + open_len <= content.len(),
    ensures
        (r.detected_child, r.consume_after_open as int, r.delim_line_type) == child_open_spec(
            content@,
            pos as int,
            open_len as int,
            default_lang,
            detect,
        ),
        r.consume_after_open <= content.len() - pos - open_len,
        r.detected_child matches Some(id) ==> id < LANGUAGE_COUNT,
{
    let after_open = slice_subrange(content, pos + open_len, content.len());
    assert(after_open@ =~= content@.skip(pos + open_len));
    match detect {
        Detection::Fixed => ChildOpenResult {
            detected_child: resolve_default_lang(default_lang),
            consume_after_open: 0,
            delim_line_type: LineType::Code,
        },
        Detection::Fence => {
            let found = find_newline(after_open);
            proof {
                lemma_first_of(after_open@, seq![10u8]);
            }
            let end = match found {
                Some(n) => n,
                None => after_open.len(),
            };
            let info = slice_subrange(after_open, 0, end);
            let a = ascii_ws_bytes_run(info, 0, true);
            assert(info@.skip(0) =~= info@);
            let b = ascii_ws_bytes_run(info, a, false);
            let ident = slice_subrange(info, a, a + b);
            assert(ident@ =~= fence_ident(after_open@.take(end as int))) by {
                assert(info@ =~= after_open@.take(end as int));
            }
            let from_ident = match chars_of_utf8(ident) {
                Some(c) => resolve_lang_ident(&c),
                None => None,
            };
            let detected = match from_ident {
                Some(l) => Some(l),
                None => resolve_default_lang(default_lang),
            };
            let consume = if end < after_open.len() {
                end + 1
            } else {
                end
            };
            ChildOpenResult {
                detected_child: detected,
                consume_after_open: consume,
                delim_line_type: LineType::Comment,
            }
        },
        Detection::Tag => {
            let gt = position_of(after_open, 62u8);
            proof {
                lemma_first_of(after_open@, seq![62u8]);
            }
            match gt {
                Some(g) => {
                    let header = slice_subrange(content, pos, pos + open_len + g + 1);
                    ChildOpenResult {
                        detected_child: detect_tag_lang(header, default_lang),
                        consume_after_open: g + 1,
                        delim_line_type: LineType::Code,
                    }
                },
                None => ChildOpenResult {
                    detected_child: resolve_default_lang(default_lang),
                    consume_after_open: 0,
                    delim_line_type: LineType::Code,
                },
            }
        },
    }
}

/// Where the body of `line` starts after the first of `prefixes` that starts it.
fn line_starts_with_any_prefix(line: &[u8], prefixes: &Vec<Vec<u8>>) -> (r: Option<usize>)
    ensures
        match strip_any_prefix(line@, prefixes@.map_values(|p: Vec<u8>| p@)) {
            Some(body) => r matches Some(k) && k <= line.len() && body == line@.skip(k as int)
                && k == line.len() - body.len(),
            None => r is None,
        },
{
    let ghost ps = prefixes@.map_values(|p: Vec<u8>| p@);
    let mut i: usize = 0;
    assert(ps.skip(0) =~= ps);
    while i < prefixes.len()
        invariant
            i <= prefixes.len(),
            ps == prefixes@.map_values(|p: Vec<u8>| p@),
            strip_any_prefix(line@, ps) == strip_any_prefix(line@, ps.skip(i as int)),
        decreases prefixes.len() - i,
    {
        let p = &prefixes[i];
        assert(ps.skip(i as int)[0] == p@);
        if p.len() <= line.len() {
            let mut k: usize = 0;
            while k < p.len() && p[k] == line[k]
                invariant
                    k <= p.len(),
                    p.len() <= line.len(),
                    forall|m: int| 0 <= m < k ==> p@[m] == line@[m],
                decreases p.len() - k,
            {
                k += 1;
            }
            if k == p.len() {
                assert(line@.take(p.len() as int) =~= p@);
                return Some(p.len());
            }
            assert(!starts_with(line@, p@)) by {
                if starts_with(line@, p@) {
                    assert(line@.take(p.len() as int)[k as int] == line@[k as int]);
                }
            }
        }
        assert(ps.skip(i as int).drop_first() =~= ps.skip(i + 1));
        i += 1;
    }
    None
}

/// Bounds of a documentation block for any prefixes: it ends within the text,
/// and it is at most one byte longer than the text it is taken from (a last
/// line that no newline ends gains one); when more text follows it, no longer.
pub(crate) proof fn lemma_doc_block_bounds(content: Seq<u8>, prefixes: Seq<Seq<u8>>, pos: int)
    requires
        0 <= pos <= content.len(),
    ensures
        pos <= doc_block(content, prefixes, pos).1 <= content.len(),
        doc_block(content, prefixes, pos).0.len() <= doc_block(content, prefixes, pos).1 - pos + 1,
        doc_block(content, prefixes, pos).1 < content.len() ==> doc_block(content, prefixes, pos).0.len()
            <= doc_block(content, prefixes, pos).1 - pos,
        doc_block(content, prefixes, pos).0.len() == 0 ==> doc_block(content, prefixes, pos).1 == pos,
    decreases content.len() - pos,
{
    if 0 <= pos < content.len() {
        let bytes = content.skip(pos);
        lemma_first_of(bytes, seq![10u8]);
        let end = pos + line_end(bytes);
        let line = content.subrange(pos, end);
        lemma_strip_any_prefix_le(line, prefixes);
        match strip_any_prefix(line, prefixes) {
            None => {},
            Some(body) => {
                let next = if end < content.len() {
                    end + 1
                } else {
                    end
                };
                if pos < next <= content.len() {
                    lemma_doc_block_bounds(content, prefixes, next);
                }
            },
        }
    }
}

proof fn lemma_strip_any_prefix_le(line: Seq<u8>, prefixes: Seq<Seq<u8>>)
    ensures
        strip_any_prefix(line, prefixes) matches Some(body) ==> body.len() <= line.len(),
    decreases prefixes.len(),
{
    if prefixes.len() > 0 && !starts_with(line, prefixes[0]) {
        lemma_strip_any_prefix_le(line, prefixes.drop_first());
    }
}

/// When every documentation prefix is non-empty, counting a block of text is
/// counting it as a file.
pub proof fn lemma_block_is_file(content: Seq<u8>, lang: LanguageView)
    requires
        prefixes_nonempty(lang),
        doc_rank(language_view(MARKDOWN as int)) == 0,
    ensures
        count_block_spec(content, lang) == count_file_spec(content, lang),
{
    if lang.leading_doc_prefixes.len() > 0 {
        lemma_doc_block_len(content, lang.leading_doc_prefixes, 0);
    }
}

pub(crate) proof fn lemma_doc_block_len(content: Seq<u8>, prefixes: Seq<Seq<u8>>, pos: int)
    requires
        0 <= pos <= content.len(),
        forall|i: int| 0 <= i < prefixes.len() ==> #[trigger] prefixes[i].len() > 0,
    ensures
        pos <= doc_block(content, prefixes, pos).1 <= content.len(),
        doc_block(content, prefixes, pos).0.len() <= doc_block(content, prefixes, pos).1 - pos,
        doc_block(content, prefixes, pos).0.len() > 0 && doc_block(content, prefixes, pos).1
            < content.len() ==> doc_block(content, prefixes, pos).0.len() + 1 <= doc_block(
            content,
            prefixes,
            pos,
        ).1 - pos,
    decreases content.len() - pos,
{
    if 0 <= pos < content.len() {
        let bytes = content.skip(pos);
        lemma_first_of(bytes, seq![10u8]);
        let end = pos + line_end(bytes);
        let line = content.subrange(pos, end);
        lemma_strip_any_prefix(line, prefixes);
        match strip_any_prefix(line, prefixes) {
            None => {},
            Some(body) => {
                let next = if end < content.len() {
                    end + 1
                } else {
                    end
                };
                if pos < next <= content.len() {
                    lemma_doc_block_len(content, prefixes, next);
                }
            },
        }
    }
}

proof fn lemma_strip_any_prefix(line: Seq<u8>, prefixes: Seq<Seq<u8>>)
    requires
        forall|i: int| 0 <= i < prefixes.len() ==> #[trigger] prefixes[i].len() > 0,
    ensures
        strip_any_prefix(line, prefixes) matches Some(body) ==> body.len() < line.len(),
    decreases prefixes.len(),
{
    if prefixes.len() > 0 && !starts_with(line, prefixes[0]) {
        assert forall|i: int| 0 <= i < prefixes.drop_first().len() implies #[trigger] prefixes.drop_first()[i].len() > 0 by {
            assert(prefixes.drop_first()[i] == prefixes[i + 1]);
        }
        lemma_strip_any_prefix(line, prefixes.drop_first());
    }
}

/// The leading documentation block of a file (consecutive lines that start with
/// one of `prefixes`), counted as Markdown, and where the rest of the file starts.
pub fn leading_doc_child(content: &[u8], prefixes: &Vec<Vec<u8>>) -> (r: (Option<LineCounts>, usize))
    requires
        content.len() <= MAX_CONTENT_LEN + 1,
        nonempty_prefixes(prefixes@.map_values(|p: Vec<u8>| p@)) || content.len() <= MAX_CONTENT_LEN,
    ensures
        ({
            let ps = prefixes@.map_values(|p: Vec<u8>| p@);
            let doc = doc_block(content@, ps, 0);
            &&& 0 <= doc.1 <= content.len()
            &&& doc.0.len() <= doc.1 + 1
            &&& doc.1 < content.len() ==> doc.0.len() <= doc.1
            &&& nonempty_prefixes(ps) ==> doc.0.len() <= doc.1
            &&& nonempty_prefixes(ps) && doc.0.len() > 0 && doc.1 < content.len() ==> doc.0.len() + 1
                <= doc.1
            &&& if doc.0.len() == 0 {
                r.0 is None && r.1 == 0
            } else {
                &&& r.0 is Some
                &&& r.0.unwrap()@ == aggregate(
                    count_block_spec(doc.0, language_view(MARKDOWN as int)),
                )
                &&& r.1 == doc.1
                &&& counts_total(r.0.unwrap()@) <= 3 * doc.0.len() + 1
            }
        }),
    decreases content.len() + (if nonempty_prefixes(prefixes@.map_values(|p: Vec<u8>| p@)) {
        0int
    } else {
        1int
    }), 1nat, 4nat, 0nat,
{
    let ghost ps = prefixes@.map_values(|p: Vec<u8>| p@);
    let mut pos: usize = 0;
    let mut md_buf: Vec<u8> = Vec::new();
    let mut done = false;
    proof {
        lemma_doc_block_bounds(content@, ps, 0);
        assert(md_buf@ + doc_block(content@, ps, 0).0 =~= doc_block(content@, ps, 0).0);
    }
    while pos < content.len() && !done
        invariant
            pos <= content.len(),
            ps == prefixes@.map_values(|p: Vec<u8>| p@),
            doc_block(content@, ps, 0) == (md_buf@ + doc_block(content@, ps, pos as int).0, doc_block(content@, ps, pos as int).1),
            done ==> doc_block(content@, ps, pos as int).0.len() == 0 && doc_block(content@, ps, pos as int).1 == pos,
        decreases content.len() - pos, if done { 0int } else { 1int },
    {
        let bytes = slice_subrange(content, pos, content.len());
        assert(bytes@ =~= content@.skip(pos as int));
        let found = find_newline(bytes);
        proof {
            lemma_first_of(bytes@, seq![10u8]);
        }
        let end = match found {
            Some(i) => pos + i,
            None => content.len(),
        };
        let line = slice_subrange(content, pos, end);
        let stripped = line_starts_with_any_prefix(line, prefixes);
        if stripped.is_none() {
            done = true;
            assert(md_buf@ + Seq::<u8>::empty() =~= md_buf@);
            continue;
        }
        let start = stripped.unwrap();
        let mut body_start = start;
        if body_start < line.len() && line[body_start] == 32u8 {
            body_start = body_start + 1;
        }
        let body = slice_subrange(line, body_start, line.len());
        let ghost old_buf = md_buf@;
        append_bytes(&mut md_buf, body);
        md_buf.push(10u8);
        let next = if end < content.len() {
            end + 1
        } else {
            end
        };
        proof {
            let text_spec = line@.skip(start as int);
            assert(body@ =~= (if text_spec.len() > 0 && text_spec[0] == 32u8 {
                text_spec.skip(1)
            } else {
                text_spec
            }));
            assert(md_buf@ =~= old_buf + (body@ + seq![10u8]));
            assert(line@ =~= content@.subrange(pos as int, end as int));
            let rest = doc_block(content@, ps, next as int);
            assert(doc_block(content@, ps, pos as int) == (body@ + seq![10u8] + rest.0, rest.1));
            assert(old_buf + (body@ + seq![10u8] + rest.0) =~= md_buf@ + rest.0);
        }
        pos = next;
    }
    proof {
        lemma_doc_block_bounds(content@, ps, pos as int);
        lemma_doc_block_bounds(content@, ps, 0);
        if nonempty_prefixes(ps) {
            lemma_doc_block_len(content@, ps, 0);
        }
    }
    assert(md_buf@ =~= doc_block(content@, ps, 0).0);
    if md_buf.len() == 0 {
        return (None, 0);
    }
    let md = language(MARKDOWN);
    proof {
        lemma_registry_prefixes(MARKDOWN as int);
    }
    let r = super::count_file(&md_buf, &md);
    proof {
        lemma_block_is_file(md_buf@, md@);
        lemma_children_sum_total(r@.children);
    }
    let counts = aggregate_counts_with_children(&r);
    (Some(counts), pos)
}

} // verus!
