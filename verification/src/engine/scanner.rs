//! Byte searches used by the line classifier.
//!
//! Every search returns the index of the first byte of `bytes` that belongs to a
//! small set of needles, which the spec function [`first_of`] states.
use vstd::prelude::*;

verus! {

/// Index of the first byte of `bytes` that occurs in `needles`, if any.
pub open spec fn first_of(bytes: Seq<u8>, needles: Seq<u8>) -> Option<int>
    decreases bytes.len(),
{
    if bytes.len() == 0 {
        None
    } else if needles.contains(bytes[0]) {
        Some(0)
    } else {
        match first_of(bytes.drop_first(), needles) {
            Some(i) => Some(i + 1),
            None => None,
        }
    }
}

/// `r` is the index of the first byte of `bytes` in `needles`, or `None` when
/// no byte of `bytes` is in `needles`.
pub open spec fn is_first_of(bytes: Seq<u8>, needles: Seq<u8>, r: Option<int>) -> bool {
    match r {
        Some(i) => {
            &&& 0 <= i < bytes.len()
            &&& needles.contains(bytes[i])
            &&& forall|j: int| 0 <= j < i ==> !needles.contains(#[trigger] bytes[j])
        },
        None => forall|j: int| 0 <= j < bytes.len() ==> !needles.contains(#[trigger] bytes[j]),
    }
}

/// The recursive definition and the declarative description agree.
pub proof fn lemma_first_of(bytes: Seq<u8>, needles: Seq<u8>)
    ensures
        is_first_of(bytes, needles, first_of(bytes, needles)),
        forall|r: Option<int>| is_first_of(bytes, needles, r) ==> r == first_of(bytes, needles),
    decreases bytes.len(),
{
    if bytes.len() > 0 && !needles.contains(bytes[0]) {
        let rest = bytes.drop_first();
        lemma_first_of(rest, needles);
        assert forall|j: int| 0 <= j < rest.len() implies rest[j] == bytes[j + 1] by {}
        assert forall|r: Option<int>| is_first_of(bytes, needles, r) implies r == first_of(
            bytes,
            needles,
        ) by {
            match r {
                Some(i) => {
                    assert(i != 0);
                    assert(is_first_of(rest, needles, Some(i - 1))) by {
                        assert forall|j: int| 0 <= j < i - 1 implies !needles.contains(
                            #[trigger] rest[j],
                        ) by {
                            assert(rest[j] == bytes[j + 1]);
                        }
                    }
                },
                None => {
                    assert(is_first_of(rest, needles, None)) by {
                        assert forall|j: int| 0 <= j < rest.len() implies !needles.contains(
                            #[trigger] rest[j],
                        ) by {
                            assert(rest[j] == bytes[j + 1]);
                        }
                    }
                },
            }
        }
        match first_of(rest, needles) {
            Some(i) => {
                assert forall|j: int| 0 <= j < i + 1 implies !needles.contains(
                    #[trigger] bytes[j],
                ) by {
                    if j > 0 {
                        assert(bytes[j] == rest[j - 1]);
                    }
                }
            },
            None => {
                assert forall|j: int| 0 <= j < bytes.len() implies !needles.contains(
                    #[trigger] bytes[j],
                ) by {
                    if j > 0 {
                        assert(bytes[j] == rest[j - 1]);
                    }
                }
            },
        }
    }
}

/// Membership in a sequence of three needles.
pub proof fn lemma_contains3(s: Seq<u8>, a: u8, b: u8, c: u8)
    requires
        s == seq![a, b, c],
    ensures
        forall|x: u8| #[trigger] s.contains(x) <==> (x == a || x == b || x == c),
{
    assert forall|x: u8| #[trigger] s.contains(x) <==> (x == a || x == b || x == c) by {
        if x == a {
            assert(s[0] == x);
        } else if x == b {
            assert(s[1] == x);
        } else if x == c {
            assert(s[2] == x);
        }
    }
}

/// Membership in a sequence of two needles.
pub proof fn lemma_contains2(s: Seq<u8>, a: u8, b: u8)
    requires
        s == seq![a, b],
    ensures
        forall|x: u8| #[trigger] s.contains(x) <==> (x == a || x == b),
{
    assert forall|x: u8| #[trigger] s.contains(x) <==> (x == a || x == b) by {
        if x == a {
            assert(s[0] == x);
        } else if x == b {
            assert(s[1] == x);
        }
    }
}

/// Membership in a sequence of one needle.
pub proof fn lemma_contains1(s: Seq<u8>, a: u8)
    requires
        s == seq![a],
    ensures
        forall|x: u8| #[trigger] s.contains(x) <==> x == a,
{
    assert forall|x: u8| #[trigger] s.contains(x) <==> x == a by {
        if x == a {
            assert(s[0] == x);
        }
    }
}

/// `first_of` depends on the needles only as a set.
pub proof fn lemma_first_of_same_needles(bytes: Seq<u8>, a: Seq<u8>, b: Seq<u8>)
    requires
        forall|x: u8| a.contains(x) <==> b.contains(x),
    ensures
        first_of(bytes, a) == first_of(bytes, b),
{
    lemma_first_of(bytes, a);
    lemma_first_of(bytes, b);
    assert(is_first_of(bytes, b, first_of(bytes, a)));
}

/// Lifts an index in `usize` to the spec result of a search.
pub open spec fn index_view(r: Option<usize>) -> Option<int> {
    match r {
        Some(i) => Some(i as int),
        None => None,
    }
}

/// `memchr::memchr`: the index of the first occurrence of `needle` in `haystack`.
/// The contract restates the crate's documentation: the result is the first
/// position holding `needle`, or `None` when no position does.
#[verifier::external_body]
pub(crate) fn memchr_first(needle: u8, haystack: &[u8]) -> (r: Option<usize>)
    ensures
        is_first_of(haystack@, seq![needle], index_view(r)),
{
    memchr::memchr(needle, haystack)
}

/// `memchr::memchr2`: the index of the first byte of `haystack` equal to
/// `needle1` or `needle2`, as the crate documents it.
#[verifier::external_body]
fn memchr2_first(needle1: u8, needle2: u8, haystack: &[u8]) -> (r: Option<usize>)
    ensures
        is_first_of(haystack@, seq![needle1, needle2], index_view(r)),
{
    memchr::memchr2(needle1, needle2, haystack)
}

/// `memchr::memchr3`: the index of the first byte of `haystack` equal to one of
/// the three needles, as the crate documents it.
#[verifier::external_body]
fn memchr3_first(needle1: u8, needle2: u8, needle3: u8, haystack: &[u8]) -> (r: Option<usize>)
    ensures
        is_first_of(haystack@, seq![needle1, needle2, needle3], index_view(r)),
{
    memchr::memchr3(needle1, needle2, needle3, haystack)
}

/// Linear search used for four needles or more.
fn find_interesting_wide(bytes: &[u8], needles: &[u8]) -> (r: Option<usize>)
    ensures
        index_view(r) == first_of(bytes@, needles@),
{
    let mut i: usize = 0;
    while i < bytes.len()
        invariant
            i <= bytes.len(),
            forall|j: int| 0 <= j < i ==> !needles@.contains(#[trigger] bytes@[j]),
        decreases bytes.len() - i,
    {
        let b = bytes[i];
        let mut k: usize = 0;
        while k < needles.len()
            invariant
                k <= needles.len(),
                i < bytes.len(),
                b == bytes@[i as int],
                forall|j: int| 0 <= j < i ==> !needles@.contains(#[trigger] bytes@[j]),
                forall|m: int| 0 <= m < k ==> needles@[m] != b,
            decreases needles.len() - k,
        {
            if needles[k] == b {
                proof {
                    lemma_first_of(bytes@, needles@);
                    assert(needles@[k as int] == bytes@[i as int]);
                    assert(needles@.contains(bytes@[i as int]));
                    assert(is_first_of(bytes@, needles@, Some(i as int)));
                }
                return Some(i);
            }
            k += 1;
        }
        assert(!needles@.contains(b));
        i += 1;
    }
    proof {
        lemma_first_of(bytes@, needles@);
        assert(is_first_of(bytes@, needles@, None));
    }
    None
}

/// Find the next occurrence of any byte in `needles`.
pub fn find_interesting(bytes: &[u8], needles: &[u8]) -> (r: Option<usize>)
    ensures
        index_view(r) == first_of(bytes@, needles@),
{
    proof {
        lemma_first_of(bytes@, needles@);
    }
    if needles.len() == 0 {
        assert(is_first_of(bytes@, needles@, None));
        None
    } else if needles.len() == 1 {
        let r = memchr_first(needles[0], bytes);
        proof {
            assert(needles@ =~= seq![needles@[0]]);
        }
        r
    } else if needles.len() == 2 {
        let r = memchr2_first(needles[0], needles[1], bytes);
        proof {
            assert(needles@ =~= seq![needles@[0], needles@[1]]);
        }
        r
    } else if needles.len() == 3 {
        let r = memchr3_first(needles[0], needles[1], needles[2], bytes);
        proof {
            assert(needles@ =~= seq![needles@[0], needles@[1], needles@[2]]);
        }
        r
    } else {
        find_interesting_wide(bytes, needles)
    }
}

/// Find the next newline.
pub fn find_newline(bytes: &[u8]) -> (r: Option<usize>)
    ensures
        index_view(r) == first_of(bytes@, seq![10u8]),
{
    let r = memchr_first(10u8, bytes);
    proof {
        lemma_first_of(bytes@, seq![10u8]);
    }
    r
}

/// Find the next newline or `close_byte`.
pub fn find_newline_or(bytes: &[u8], close_byte: u8) -> (r: Option<usize>)
    ensures
        index_view(r) == first_of(bytes@, seq![10u8, close_byte]),
{
    if close_byte == 10u8 {
        let r = memchr_first(10u8, bytes);
        proof {
            lemma_first_of(bytes@, seq![10u8]);
            lemma_contains1(seq![10u8], 10u8);
            lemma_contains2(seq![10u8, close_byte], 10u8, close_byte);
            lemma_first_of_same_needles(bytes@, seq![10u8], seq![10u8, close_byte]);
        }
        r
    } else {
        let r = memchr2_first(10u8, close_byte, bytes);
        proof {
            lemma_first_of(bytes@, seq![10u8, close_byte]);
        }
        r
    }
}

/// Find the end of a string literal with escapes: a newline, `close_byte` or a backslash.
pub fn find_string_end(bytes: &[u8], close_byte: u8) -> (r: Option<usize>)
    ensures
        index_view(r) == first_of(bytes@, seq![10u8, close_byte, 92u8]),
{
    let r = memchr3_first(10u8, close_byte, 92u8, bytes);
    proof {
        lemma_first_of(bytes@, seq![10u8, close_byte, 92u8]);
    }
    r
}

/// Find the end of a raw string literal: a newline or `close_byte`.
pub fn find_string_end_no_escape(bytes: &[u8], close_byte: u8) -> (r: Option<usize>)
    ensures
        index_view(r) == first_of(bytes@, seq![10u8, close_byte]),
{
    let r = memchr2_first(10u8, close_byte, bytes);
    proof {
        lemma_first_of(bytes@, seq![10u8, close_byte]);
    }
    r
}

/// Find the next byte relevant to nested block comments: a newline or the first
/// byte of the opening or of the closing delimiter.
pub fn find_nested_block(bytes: &[u8], open_first: u8, close_first: u8) -> (r: Option<usize>)
    ensures
        index_view(r) == first_of(bytes@, seq![10u8, open_first, close_first]),
{
    if open_first == close_first {
        let r = memchr2_first(10u8, open_first, bytes);
        proof {
            lemma_first_of(bytes@, seq![10u8, open_first]);
            lemma_contains2(seq![10u8, open_first], 10u8, open_first);
            lemma_contains3(seq![10u8, open_first, close_first], 10u8, open_first, close_first);
            lemma_first_of_same_needles(
                bytes@,
                seq![10u8, open_first],
                seq![10u8, open_first, close_first],
            );
        }
        r
    } else {
        let r = memchr3_first(10u8, open_first, close_first, bytes);
        proof {
            lemma_first_of(bytes@, seq![10u8, open_first, close_first]);
        }
        r
    }
}

} // verus!
