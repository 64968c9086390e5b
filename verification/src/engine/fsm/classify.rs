//! Counting a finished line and classifying the text before a token.
use vstd::prelude::*;

use super::types::Counts;
use super::types::LineCounts;
use super::types::LineType;
use super::types::ParseState;
use super::types::counts_total;

verus! {

/// `c` with one more line of type `line_type`.
pub open spec fn emit_counts(c: Counts, line_type: LineType) -> Counts {
    match line_type {
        LineType::Blank => Counts { blank: c.blank + 1, ..c },
        LineType::Code => Counts { code: c.code + 1, ..c },
        LineType::Comment => Counts { comment: c.comment + 1, ..c },
    }
}

/// The type a new line starts with: a line inside a block comment is a comment
/// until shown otherwise.
pub open spec fn line_type_after(parse: ParseState) -> LineType {
    match parse {
        ParseState::BlockComment { .. } => LineType::Comment,
        _ => LineType::Blank,
    }
}

/// Count a finished line of type `line_type`.
pub fn emit(counts: &mut LineCounts, line_type: LineType, parse: ParseState) -> (r: LineType)
    requires
        counts_total(old(counts)@) < u32::MAX,
    ensures
        final(counts)@ == emit_counts(old(counts)@, line_type),
        r == line_type_after(parse),
{
    match line_type {
        LineType::Blank => counts.blank = counts.blank + 1,
        LineType::Code => counts.code = counts.code + 1,
        LineType::Comment => counts.comment = counts.comment + 1,
    }
    match parse {
        ParseState::BlockComment { .. } => LineType::Comment,
        _ => LineType::Blank,
    }
}

/// A byte that is neither space, tab nor carriage return.
pub open spec fn is_non_ws(b: u8) -> bool {
    b != 32 && b != 9 && b != 13
}

/// An ASCII letter, digit or underscore.
pub open spec fn is_word_byte(b: u8) -> bool {
    (48 <= b <= 57) || (65 <= b <= 90) || (97 <= b <= 122) || b == 95
}

/// Some byte of `s` is neither space, tab nor carriage return.
pub open spec fn has_non_ws(s: Seq<u8>) -> bool {
    exists|i: int| 0 <= i < s.len() && is_non_ws(#[trigger] s[i])
}

/// Some byte of `s` is an ASCII letter, digit or underscore.
pub open spec fn has_word_byte(s: Seq<u8>) -> bool {
    exists|i: int| 0 <= i < s.len() && is_word_byte(#[trigger] s[i])
}

/// The type of a line after the text `prefix` that holds no token.
///
/// A blank line becomes code (or comment, in comment-default languages) once it
/// holds anything but whitespace. A comment line becomes code when a block
/// comment opened and closed on it, or its close line counts as code, and the
/// text holds a letter, digit or underscore; an orphaned `*/` does not.
pub open spec fn classify_prefix_spec(
    prefix: Seq<u8>,
    line_type: LineType,
    block_started_this_line: bool,
    close_line_is_code: bool,
    default_is_comment: bool,
) -> LineType {
    match line_type {
        LineType::Blank => if has_non_ws(prefix) {
            if default_is_comment {
                LineType::Comment
            } else {
                LineType::Code
            }
        } else {
            LineType::Blank
        },
        LineType::Comment => if (block_started_this_line || close_line_is_code) {
            if has_word_byte(prefix) {
                LineType::Code
            } else {
                LineType::Comment
            }
        } else {
            LineType::Comment
        },
        _ => line_type,
    }
}

/// Law: what token-free text does to the type of a line. A comment line
/// becomes a code line when a block comment opened on it (or its closing line
/// counts as code) and the text holds a letter, digit or underscore; without
/// such a character it stays a comment line, as it does when no block comment
/// opened on it and its close line is not code. A blank line stays blank only
/// while the text is whitespace; other text makes it a code line, or a comment
/// line in a language whose text is comment by default. A code line stays code.
pub proof fn lemma_classify_laws(
    prefix: Seq<u8>,
    block_started_this_line: bool,
    close_line_is_code: bool,
    default_is_comment: bool,
)
    ensures
        block_started_this_line && has_word_byte(prefix) ==> classify_prefix_spec(
            prefix,
            LineType::Comment,
            block_started_this_line,
            close_line_is_code,
            default_is_comment,
        ) == LineType::Code,
        close_line_is_code && has_word_byte(prefix) ==> classify_prefix_spec(
            prefix,
            LineType::Comment,
            block_started_this_line,
            close_line_is_code,
            default_is_comment,
        ) == LineType::Code,
        !has_word_byte(prefix) || !(block_started_this_line || close_line_is_code)
            ==> classify_prefix_spec(
            prefix,
            LineType::Comment,
            block_started_this_line,
            close_line_is_code,
            default_is_comment,
        ) == LineType::Comment,
        classify_prefix_spec(
            prefix,
            LineType::Code,
            block_started_this_line,
            close_line_is_code,
            default_is_comment,
        ) == LineType::Code,
        (classify_prefix_spec(
            prefix,
            LineType::Blank,
            block_started_this_line,
            close_line_is_code,
            default_is_comment,
        ) == LineType::Blank) == (forall|k: int| 0 <= k < prefix.len() ==> !is_non_ws(#[trigger] prefix[k])),
        has_non_ws(prefix) ==> classify_prefix_spec(
            prefix,
            LineType::Blank,
            block_started_this_line,
            close_line_is_code,
            default_is_comment,
        ) == (if default_is_comment {
            LineType::Comment
        } else {
            LineType::Code
        }),
{
}

/// Whether some byte of `s` is neither space, tab nor carriage return.
pub fn any_non_ws(s: &[u8]) -> (r: bool)
    ensures
        r == has_non_ws(s@),
{
    let mut i: usize = 0;
    while i < s.len()
        invariant
            i <= s.len(),
            forall|j: int| 0 <= j < i ==> !is_non_ws(#[trigger] s@[j]),
        decreases s.len() - i,
    {
        let c = s[i];
        if c != 32u8 && c != 9u8 && c != 13u8 {
            assert(is_non_ws(s@[i as int]));
            return true;
        }
        i += 1;
    }
    false
}

/// Whether some byte of `s` is an ASCII letter, digit or underscore.
pub fn any_word_byte(s: &[u8]) -> (r: bool)
    ensures
        r == has_word_byte(s@),
{
    let mut i: usize = 0;
    while i < s.len()
        invariant
            i <= s.len(),
            forall|j: int| 0 <= j < i ==> !is_word_byte(#[trigger] s@[j]),
        decreases s.len() - i,
    {
        let c = s[i];
        if (48u8 <= c && c <= 57u8) || (65u8 <= c && c <= 90u8) || (97u8 <= c && c <= 122u8)
            || c == 95u8 {
            assert(is_word_byte(s@[i as int]));
            return true;
        }
        i += 1;
    }
    false
}

/// The type of a line after the text `prefix` that holds no token.
pub fn classify_prefix(
    prefix: &[u8],
    line_type: LineType,
    block_started_this_line: bool,
    close_line_is_code: bool,
    default_is_comment: bool,
) -> (r: LineType)
    ensures
        r == classify_prefix_spec(
            prefix@,
            line_type,
            block_started_this_line,
            close_line_is_code,
            default_is_comment,
        ),
{
    match line_type {
        LineType::Blank => {
            if any_non_ws(prefix) {
                if default_is_comment {
                    LineType::Comment
                } else {
                    LineType::Code
                }
            } else {
                LineType::Blank
            }
        },
        LineType::Comment => {
            if block_started_this_line || close_line_is_code {
                if any_word_byte(prefix) {
                    LineType::Code
                } else {
                    LineType::Comment
                }
            } else {
                LineType::Comment
            }
        },
        _ => line_type,
    }
}

} // verus!
