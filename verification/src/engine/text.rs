//! Character-level helpers shared by language lookup and region detection.
use vstd::prelude::*;
use vstd::string::StringSliceAdditionalSpecFns;
use vstd::utf8::valid_utf8;
use vstd::std_specs::iter::IteratorSpec;

verus! {

broadcast use {vstd::string::group_string_axioms, vstd::utf8::group_utf8_lib};

/// The Unicode `White_Space` property, which `char::is_whitespace` tests.
pub open spec fn is_unicode_whitespace(c: char) -> bool {
    let v = c as u32;
    ||| 9 <= v <= 13
    ||| v == 32
    ||| v == 0x85
    ||| v == 0xA0
    ||| v == 0x1680
    ||| 0x2000 <= v <= 0x200A
    ||| v == 0x2028
    ||| v == 0x2029
    ||| v == 0x202F
    ||| v == 0x205F
    ||| v == 0x3000
}

/// Whether `c` has the Unicode `White_Space` property.
pub fn char_is_whitespace(c: char) -> (r: bool)
    ensures
        r == is_unicode_whitespace(c),
{
    let v = c as u32;
    (9 <= v && v <= 13) || v == 32 || v == 0x85 || v == 0xA0 || v == 0x1680 || (0x2000 <= v
        && v <= 0x200A) || v == 0x2028 || v == 0x2029 || v == 0x202F || v == 0x205F || v == 0x3000
}

/// ASCII whitespace as `u8::is_ascii_whitespace` defines it.
pub open spec fn is_ascii_ws_byte(b: u8) -> bool {
    b == 32 || b == 9 || b == 10 || b == 12 || b == 13
}

/// ASCII whitespace as `char::is_ascii_whitespace` defines it.
pub open spec fn is_ascii_ws_char(c: char) -> bool {
    c == ' ' || c == '\t' || c == '\n' || c == '\x0C' || c == '\r'
}

/// `c` with ASCII upper-case letters mapped to lower case.
pub open spec fn ascii_lower_char(c: char) -> char {
    if 'A' <= c <= 'Z' {
        ((c as u32) + 32) as char
    } else {
        c
    }
}

/// `s` with every ASCII upper-case letter mapped to lower case.
pub open spec fn ascii_lower(s: Seq<char>) -> Seq<char> {
    s.map_values(|c: char| ascii_lower_char(c))
}

/// The characters of `s`.
pub fn chars_of(s: &str) -> (r: Vec<char>)
    ensures
        r@ == s@,
{
    let mut out: Vec<char> = Vec::new();
    for c in it: s.chars()
        invariant
            out@ == it.seq().take(it.index() as int),
    {
        out.push(c);
    }
    assert(out@ =~= s@);
    out
}

/// `s` with ASCII upper-case letters mapped to lower case.
pub fn to_ascii_lower(s: &Vec<char>) -> (r: Vec<char>)
    ensures
        r@ == ascii_lower(s@),
{
    let mut out: Vec<char> = Vec::new();
    let mut i: usize = 0;
    while i < s.len()
        invariant
            i <= s.len(),
            out@ =~= ascii_lower(s@.take(i as int)),
        decreases s.len() - i,
    {
        let c = s[i];
        let l = if 'A' <= c && c <= 'Z' {
            proof {
                assert((c as u32) + 32 <= 0x7f);
            }
            ((c as u32 + 32) as u8) as char
        } else {
            c
        };
        assert(l == ascii_lower_char(c)) by {
            if 'A' <= c <= 'Z' {
                assert(((c as u32 + 32) as u8) as char == ((c as u32) + 32) as char);
            }
        }
        out.push(l);
        assert(s@.take(i + 1) =~= s@.take(i as int).push(c));
        i += 1;
    }
    assert(s@.take(s.len() as int) =~= s@);
    out
}

/// Whether two character sequences are equal.
pub fn chars_eq(a: &Vec<char>, b: &Vec<char>) -> (r: bool)
    ensures
        r == (a@ == b@),
{
    if a.len() != b.len() {
        return false;
    }
    let mut i: usize = 0;
    while i < a.len()
        invariant
            i <= a.len(),
            a.len() == b.len(),
            forall|j: int| 0 <= j < i ==> a@[j] == b@[j],
        decreases a.len() - i,
    {
        if a[i] != b[i] {
            return false;
        }
        i += 1;
    }
    assert(a@ =~= b@);
    true
}

/// `std::str::from_utf8`: the bytes read as a string slice when they are valid
/// UTF-8. The contract claims that a result is returned exactly when the bytes
/// are valid UTF-8, and that the returned slice encodes to the same bytes.
#[verifier::external_body]
pub(crate) fn utf8_str(bytes: &[u8]) -> (r: Option<&str>)
    ensures
        r.is_some() == valid_utf8(bytes@),
        r matches Some(s) ==> s.spec_bytes() == bytes@,
{
    std::str::from_utf8(bytes).ok()
}

/// Whether two string slices hold the same characters.
pub fn str_eq(a: &str, b: &str) -> (r: bool)
    ensures
        r == (a@ == b@),
{
    chars_eq(&chars_of(a), &chars_of(b))
}

/// Index one past the last `/` in `s`, or 0 when `s` holds none.
pub open spec fn after_last_slash(s: Seq<char>) -> int
    decreases s.len(),
{
    if s.len() == 0 {
        0
    } else if s.last() == '/' {
        s.len() as int
    } else {
        after_last_slash(s.drop_last())
    }
}

proof fn lemma_after_last_slash(s: Seq<char>)
    ensures
        0 <= after_last_slash(s) <= s.len(),
        forall|j: int| after_last_slash(s) <= j < s.len() ==> s[j] != '/',
        after_last_slash(s) > 0 ==> s[after_last_slash(s) - 1] == '/',
    decreases s.len(),
{
    if s.len() > 0 && s.last() != '/' {
        lemma_after_last_slash(s.drop_last());
        assert forall|j: int| after_last_slash(s) <= j < s.len() implies s[j] != '/' by {
            if j < s.len() - 1 {
                assert(s[j] == s.drop_last()[j]);
            }
        }
    }
}

/// The last `/`-separated segment of `s` (what `s.rsplit('/').next()` yields).
pub open spec fn last_segment(s: Seq<char>) -> Seq<char> {
    s.skip(after_last_slash(s))
}

/// The last `/`-separated segment of `s`.
pub fn last_segment_of(s: &Vec<char>) -> (r: Vec<char>)
    ensures
        r@ == last_segment(s@),
{
    let mut k: usize = s.len();
    assert(s@.take(k as int) =~= s@);
    while k > 0 && s[k - 1] != '/'
        invariant
            k <= s.len(),
            after_last_slash(s@) == after_last_slash(s@.take(k as int)),
        decreases k,
    {
        assert(s@.take(k as int).drop_last() =~= s@.take(k - 1));
        k -= 1;
    }
    proof {
        if k > 0 {
            assert(s@.take(k as int).last() == '/');
        }
        assert(after_last_slash(s@) == k);
    }
    let mut out: Vec<char> = Vec::new();
    let mut i: usize = k;
    while i < s.len()
        invariant
            k <= i <= s.len(),
            out@ =~= s@.subrange(k as int, i as int),
        decreases s.len() - i,
    {
        out.push(s[i]);
        i += 1;
    }
    out
}

/// Number of leading characters of `s` that satisfy Unicode whitespace.
pub open spec fn leading_ws(s: Seq<char>) -> nat
    decreases s.len(),
{
    if s.len() > 0 && is_unicode_whitespace(s[0]) {
        1 + leading_ws(s.drop_first())
    } else {
        0
    }
}

/// Number of trailing characters of `s` that satisfy Unicode whitespace.
pub open spec fn trailing_ws(s: Seq<char>) -> nat
    decreases s.len(),
{
    if s.len() > 0 && is_unicode_whitespace(s.last()) {
        1 + trailing_ws(s.drop_last())
    } else {
        0
    }
}

/// Number of leading characters of `s` that are not Unicode whitespace.
pub open spec fn leading_word(s: Seq<char>) -> nat
    decreases s.len(),
{
    if s.len() > 0 && !is_unicode_whitespace(s[0]) {
        1 + leading_word(s.drop_first())
    } else {
        0
    }
}

pub proof fn lemma_leading_ws(s: Seq<char>)
    ensures
        leading_ws(s) <= s.len(),
        forall|j: int| 0 <= j < leading_ws(s) ==> is_unicode_whitespace(#[trigger] s[j]),
        leading_ws(s) < s.len() ==> !is_unicode_whitespace(s[leading_ws(s) as int]),
    decreases s.len(),
{
    if s.len() > 0 && is_unicode_whitespace(s[0]) {
        lemma_leading_ws(s.drop_first());
        assert forall|j: int| 0 <= j < leading_ws(s) implies is_unicode_whitespace(
            #[trigger] s[j],
        ) by {
            if j > 0 {
                assert(s[j] == s.drop_first()[j - 1]);
            }
        }
    }
}

proof fn lemma_leading_word(s: Seq<char>)
    ensures
        leading_word(s) <= s.len(),
        forall|j: int| 0 <= j < leading_word(s) ==> !is_unicode_whitespace(#[trigger] s[j]),
        leading_word(s) < s.len() ==> is_unicode_whitespace(s[leading_word(s) as int]),
    decreases s.len(),
{
    if s.len() > 0 && !is_unicode_whitespace(s[0]) {
        lemma_leading_word(s.drop_first());
        assert forall|j: int| 0 <= j < leading_word(s) implies !is_unicode_whitespace(
            #[trigger] s[j],
        ) by {
            if j > 0 {
                assert(s[j] == s.drop_first()[j - 1]);
            }
        }
    }
}

proof fn lemma_trailing_ws(s: Seq<char>)
    ensures
        trailing_ws(s) <= s.len(),
        forall|j: int|
            s.len() - trailing_ws(s) <= j < s.len() ==> is_unicode_whitespace(#[trigger] s[j]),
        trailing_ws(s) < s.len() ==> !is_unicode_whitespace(s[s.len() - trailing_ws(s) - 1]),
    decreases s.len(),
{
    if s.len() > 0 && is_unicode_whitespace(s.last()) {
        lemma_trailing_ws(s.drop_last());
        assert forall|j: int| s.len() - trailing_ws(s) <= j < s.len() implies is_unicode_whitespace(
            #[trigger] s[j],
        ) by {
            if j < s.len() - 1 {
                assert(s[j] == s.drop_last()[j]);
            }
        }
    }
}

/// Count of leading whitespace characters of `s[from..]`.
fn count_leading_ws(s: &Vec<char>, from: usize) -> (r: usize)
    requires
        from <= s.len(),
    ensures
        r == leading_ws(s@.skip(from as int)),
        from + r <= s.len(),
{
    let mut i: usize = from;
    proof {
        lemma_leading_ws(s@.skip(from as int));
    }
    while i < s.len() && char_is_whitespace(s[i])
        invariant
            from <= i <= s.len(),
            leading_ws(s@.skip(from as int)) >= i - from,
            forall|j: int| from <= j < i ==> is_unicode_whitespace(#[trigger] s@[j]),
            leading_ws(s@.skip(from as int)) <= s.len() - from,
            forall|j: int|
                0 <= j < leading_ws(s@.skip(from as int)) ==> is_unicode_whitespace(
                    #[trigger] s@.skip(from as int)[j],
                ),
            leading_ws(s@.skip(from as int)) < s.len() - from ==> !is_unicode_whitespace(
                s@.skip(from as int)[leading_ws(s@.skip(from as int)) as int],
            ),
        decreases s.len() - i,
    {
        proof {
            if leading_ws(s@.skip(from as int)) == i - from {
                assert(s@.skip(from as int)[i - from] == s@[i as int]);
            }
        }
        i += 1;
    }
    proof {
        let n = leading_ws(s@.skip(from as int));
        if n > i - from {
            assert(s@.skip(from as int)[i - from] == s@[i as int]);
        }
    }
    i - from
}

/// Count of leading non-whitespace characters of `s[from..]`.
fn count_leading_word(s: &Vec<char>, from: usize) -> (r: usize)
    requires
        from <= s.len(),
    ensures
        r == leading_word(s@.skip(from as int)),
        from + r <= s.len(),
{
    let mut i: usize = from;
    proof {
        lemma_leading_word(s@.skip(from as int));
    }
    while i < s.len() && !char_is_whitespace(s[i])
        invariant
            from <= i <= s.len(),
            leading_word(s@.skip(from as int)) >= i - from,
            leading_word(s@.skip(from as int)) <= s.len() - from,
            forall|j: int|
                0 <= j < leading_word(s@.skip(from as int)) ==> !is_unicode_whitespace(
                    #[trigger] s@.skip(from as int)[j],
                ),
            leading_word(s@.skip(from as int)) < s.len() - from ==> is_unicode_whitespace(
                s@.skip(from as int)[leading_word(s@.skip(from as int)) as int],
            ),
        decreases s.len() - i,
    {
        proof {
            if leading_word(s@.skip(from as int)) == i - from {
                assert(s@.skip(from as int)[i - from] == s@[i as int]);
            }
        }
        i += 1;
    }
    proof {
        let n = leading_word(s@.skip(from as int));
        if n > i - from {
            assert(s@.skip(from as int)[i - from] == s@[i as int]);
        }
    }
    i - from
}

/// The first two whitespace-separated words of `s`, as `split_whitespace` yields them.
pub open spec fn first_two_words(s: Seq<char>) -> (Option<Seq<char>>, Option<Seq<char>>) {
    let a = s.skip(leading_ws(s) as int);
    if a.len() == 0 {
        (None, None)
    } else {
        let w1 = a.take(leading_word(a) as int);
        let b = a.skip(leading_word(a) as int);
        let c = b.skip(leading_ws(b) as int);
        if c.len() == 0 {
            (Some(w1), None)
        } else {
            (Some(w1), Some(c.take(leading_word(c) as int)))
        }
    }
}

fn copy_range(s: &Vec<char>, from: usize, to: usize) -> (r: Vec<char>)
    requires
        from <= to <= s.len(),
    ensures
        r@ == s@.subrange(from as int, to as int),
{
    let mut out: Vec<char> = Vec::new();
    let mut i: usize = from;
    while i < to
        invariant
            from <= i <= to,
            to <= s.len(),
            out@ =~= s@.subrange(from as int, i as int),
        decreases to - i,
    {
        out.push(s[i]);
        i += 1;
    }
    out
}

/// The first two whitespace-separated words of `s`.
pub fn first_two_words_of(s: &Vec<char>) -> (r: (Option<Vec<char>>, Option<Vec<char>>))
    ensures
        ({
            let spec_r = first_two_words(s@);
            &&& (r.0 matches Some(w) ==> spec_r.0 == Some(w@))
            &&& (r.0 is None ==> spec_r.0 is None)
            &&& (r.1 matches Some(w) ==> spec_r.1 == Some(w@))
            &&& (r.1 is None ==> spec_r.1 is None)
        }),
{
    let n1 = count_leading_ws(s, 0);
    assert(s@.skip(0) =~= s@);
    let a_start = n1;
    if a_start == s.len() {
        return (None, None);
    }
    let w1_len = count_leading_word(s, a_start);
    let ghost a = s@.skip(a_start as int);
    assert(s@.skip(a_start as int) =~= a);
    let w1 = copy_range(s, a_start, a_start + w1_len);
    assert(w1@ =~= a.take(w1_len as int));
    let b_start = a_start + w1_len;
    let n2 = count_leading_ws(s, b_start);
    assert(a.skip(w1_len as int) =~= s@.skip(b_start as int));
    let c_start = b_start + n2;
    assert(s@.skip(b_start as int).skip(n2 as int) =~= s@.skip(c_start as int));
    if c_start == s.len() {
        return (Some(w1), None);
    }
    let w2_len = count_leading_word(s, c_start);
    let w2 = copy_range(s, c_start, c_start + w2_len);
    assert(w2@ =~= s@.skip(c_start as int).take(w2_len as int));
    (Some(w1), Some(w2))
}

/// `s` without leading and trailing Unicode whitespace (what `str::trim` yields).
pub open spec fn trim(s: Seq<char>) -> Seq<char> {
    let a = s.skip(leading_ws(s) as int);
    a.take(a.len() - trailing_ws(a))
}

/// The bounds of `s` without leading and trailing Unicode whitespace.
pub fn trim_range(s: &Vec<char>) -> (r: (usize, usize))
    ensures
        r.0 <= r.1 <= s.len(),
        s@.subrange(r.0 as int, r.1 as int) == trim(s@),
{
    let start = count_leading_ws(s, 0);
    assert(s@.skip(0) =~= s@);
    let ghost a = s@.skip(start as int);
    let mut end: usize = s.len();
    proof {
        lemma_trailing_ws(a);
    }
    while end > start && char_is_whitespace(s[end - 1])
        invariant
            start <= end <= s.len(),
            a == s@.skip(start as int),
            trailing_ws(a) >= s.len() - end,
            trailing_ws(a) <= a.len(),
            forall|j: int|
                a.len() - trailing_ws(a) <= j < a.len() ==> is_unicode_whitespace(#[trigger] a[j]),
            trailing_ws(a) < a.len() ==> !is_unicode_whitespace(a[a.len() - trailing_ws(a) - 1]),
        decreases end,
    {
        proof {
            if trailing_ws(a) == s.len() - end {
                assert(a[a.len() - trailing_ws(a) - 1] == s@[end - 1]);
            }
        }
        end -= 1;
    }
    proof {
        if trailing_ws(a) > s.len() - end {
            assert(a[end - start - 1] == s@[end - 1]);
        }
        assert(trailing_ws(a) == s.len() - end);
    }
    assert(s@.subrange(start as int, end as int) =~= a.take(a.len() - trailing_ws(a)));
    (start, end)
}

/// `s` without leading and trailing Unicode whitespace.
pub fn trim_chars(s: &Vec<char>) -> (r: Vec<char>)
    ensures
        r@ == trim(s@),
{
    let (start, end) = trim_range(s);
    let r = copy_range(s, start, end);
    assert(r@ =~= s@.subrange(start as int, end as int));
    r
}

/// `s` without trailing Unicode whitespace (what `str::trim_end` yields).
pub fn trim_end_chars(s: &Vec<char>) -> (r: Vec<char>)
    ensures
        r@ == s@.take(s@.len() - trailing_ws(s@)),
{
    let ghost a = s@;
    let mut end: usize = s.len();
    proof {
        lemma_trailing_ws(a);
    }
    while end > 0 && char_is_whitespace(s[end - 1])
        invariant
            end <= s.len(),
            a == s@,
            trailing_ws(a) >= s.len() - end,
            trailing_ws(a) <= a.len(),
            forall|j: int|
                a.len() - trailing_ws(a) <= j < a.len() ==> is_unicode_whitespace(#[trigger] a[j]),
            trailing_ws(a) < a.len() ==> !is_unicode_whitespace(a[a.len() - trailing_ws(a) - 1]),
        decreases end,
    {
        end -= 1;
    }
    proof {
        if trailing_ws(a) > s.len() - end {
            assert(a[end - 1] == s@[end - 1]);
        }
    }
    let r = copy_range(s, 0, end);
    assert(r@ =~= a.take(a.len() - trailing_ws(a)));
    r
}

/// Lexicographic order of character sequences by code point (the order of
/// `str::cmp`, since UTF-8 preserves code point order).
pub open spec fn seq_lt(a: Seq<char>, b: Seq<char>) -> bool
    decreases a.len(),
{
    if a.len() == 0 {
        b.len() > 0
    } else if b.len() == 0 {
        false
    } else if a[0] != b[0] {
        (a[0] as u32) < (b[0] as u32)
    } else {
        seq_lt(a.drop_first(), b.drop_first())
    }
}

pub proof fn lemma_seq_lt_irreflexive(a: Seq<char>)
    ensures
        !seq_lt(a, a),
    decreases a.len(),
{
    if a.len() > 0 {
        lemma_seq_lt_irreflexive(a.drop_first());
    }
}

pub proof fn lemma_seq_lt_trichotomy(a: Seq<char>, b: Seq<char>)
    ensures
        seq_lt(a, b) || seq_lt(b, a) || a == b,
        !(seq_lt(a, b) && seq_lt(b, a)),
    decreases a.len(),
{
    if a.len() > 0 && b.len() > 0 {
        lemma_seq_lt_trichotomy(a.drop_first(), b.drop_first());
        if a[0] == b[0] && a.drop_first() == b.drop_first() {
            assert(a =~= seq![a[0]] + a.drop_first());
            assert(b =~= seq![b[0]] + b.drop_first());
        }
        if a[0] != b[0] {
            if (a[0] as u32) == (b[0] as u32) {
                vstd::utf8::char_u32_cast(a[0], a[0] as u32);
                vstd::utf8::char_u32_cast(b[0], b[0] as u32);
            }
        }
    } else if a.len() == 0 && b.len() == 0 {
        assert(a =~= b);
    }
}

pub proof fn lemma_seq_lt_transitive(a: Seq<char>, b: Seq<char>, c: Seq<char>)
    requires
        seq_lt(a, b),
        seq_lt(b, c),
    ensures
        seq_lt(a, c),
    decreases a.len(),
{
    if a.len() > 0 && b.len() > 0 && c.len() > 0 {
        if a[0] == b[0] && b[0] == c[0] {
            lemma_seq_lt_transitive(a.drop_first(), b.drop_first(), c.drop_first());
        }
    }
}

/// Whether `a` precedes `b` lexicographically.
pub fn chars_lt(a: &Vec<char>, b: &Vec<char>) -> (r: bool)
    ensures
        r == seq_lt(a@, b@),
{
    let mut i: usize = 0;
    assert(a@.skip(0) =~= a@ && b@.skip(0) =~= b@);
    while i < a.len() && i < b.len() && a[i] == b[i]
        invariant
            i <= a.len(),
            i <= b.len(),
            seq_lt(a@, b@) == seq_lt(a@.skip(i as int), b@.skip(i as int)),
        decreases a.len() - i,
    {
        assert(a@.skip(i as int).drop_first() =~= a@.skip(i + 1));
        assert(b@.skip(i as int).drop_first() =~= b@.skip(i + 1));
        i += 1;
    }
    if i == a.len() {
        i < b.len()
    } else if i == b.len() {
        false
    } else {
        assert(a@.skip(i as int)[0] == a@[i as int]);
        assert(b@.skip(i as int)[0] == b@[i as int]);
        (a[i] as u32) < (b[i] as u32)
    }
}

/// `s` is in strictly increasing order.
pub open spec fn strictly_sorted(s: Seq<Seq<char>>) -> bool {
    forall|i: int, j: int| 0 <= i < j < s.len() ==> seq_lt(#[trigger] s[i], #[trigger] s[j])
}

/// The character sequences of a list of strings.
pub open spec fn strings_view(v: Seq<String>) -> Seq<Seq<char>> {
    v.map_values(|s: String| s@)
}

proof fn lemma_push_to_set<A>(s: Seq<A>, x: A)
    ensures
        s.push(x).to_set() == s.to_set().insert(x),
{
    assert forall|y: A| s.push(x).to_set().contains(y) <==> s.to_set().insert(x).contains(y) by {
        if s.push(x).to_set().contains(y) {
            let k = choose|k: int| 0 <= k < s.push(x).len() && s.push(x)[k] == y;
            if k < s.len() {
                assert(s[k] == y);
            }
        }
        if s.to_set().contains(y) {
            let k = choose|k: int| 0 <= k < s.len() && s[k] == y;
            assert(s.push(x)[k] == y);
        }
        if y == x {
            assert(s.push(x)[s.len() as int] == y);
        }
    }
    assert(s.push(x).to_set() =~= s.to_set().insert(x));
}

/// The tail of a strictly sorted list holds exactly its elements other than the first.
proof fn lemma_sorted_tail(p: Seq<Seq<char>>, x: Seq<char>)
    requires
        strictly_sorted(p),
        p.len() > 0,
    ensures
        p.drop_first().to_set().contains(x) <==> (p.to_set().contains(x) && x != p[0]),
{
    if p.drop_first().to_set().contains(x) {
        let j = choose|j: int| 0 <= j < p.drop_first().len() && p.drop_first()[j] == x;
        assert(p[j + 1] == x);
        assert(seq_lt(p[0], p[j + 1]));
        lemma_seq_lt_irreflexive(x);
    }
    if p.to_set().contains(x) && x != p[0] {
        let j = choose|j: int| 0 <= j < p.len() && p[j] == x;
        assert(p.drop_first()[j - 1] == x);
    }
}

/// Law: two strictly sorted lists with the same elements are the same list, so
/// sorting without repeats gives one result whatever order the input came in.
pub proof fn lemma_sorted_unique(p: Seq<Seq<char>>, q: Seq<Seq<char>>)
    requires
        strictly_sorted(p),
        strictly_sorted(q),
        p.to_set() == q.to_set(),
    ensures
        p == q,
    decreases p.len(),
{
    if p.len() == 0 {
        if q.len() > 0 {
            assert(q.to_set().contains(q[0]));
        }
        assert(p =~= q);
    } else {
        assert(p.to_set().contains(p[0]));
        let k = choose|k: int| 0 <= k < q.len() && q[k] == p[0];
        assert(q.to_set().contains(q[0]));
        let m = choose|m: int| 0 <= m < p.len() && p[m] == q[0];
        if k > 0 {
            assert(seq_lt(q[0], q[k]));
            if m > 0 {
                assert(seq_lt(p[0], p[m]));
                lemma_seq_lt_trichotomy(p[0], q[0]);
            } else {
                lemma_seq_lt_irreflexive(q[0]);
            }
        }
        assert(q[0] == p[0]);
        let p1 = p.drop_first();
        let q1 = q.drop_first();
        assert forall|i: int, j: int| 0 <= i < j < p1.len() implies seq_lt(#[trigger] p1[i], #[trigger] p1[j]) by {
            assert(p1[i] == p[i + 1] && p1[j] == p[j + 1]);
        }
        assert forall|i: int, j: int| 0 <= i < j < q1.len() implies seq_lt(#[trigger] q1[i], #[trigger] q1[j]) by {
            assert(q1[i] == q[i + 1] && q1[j] == q[j + 1]);
        }
        assert forall|x: Seq<char>| p1.to_set().contains(x) <==> q1.to_set().contains(x) by {
            lemma_sorted_tail(p, x);
            lemma_sorted_tail(q, x);
        }
        assert(p1.to_set() =~= q1.to_set());
        lemma_sorted_unique(p1, q1);
        assert(p =~= q) by {
            assert forall|i: int| 0 <= i < p.len() implies p[i] == q[i] by {
                if i > 0 {
                    assert(p[i] == p1[i - 1] && q[i] == q1[i - 1]);
                }
            }
        }
    }
}

/// The strings of `v` in increasing order, each once (what `sort` then `dedup` yields).
pub fn sort_dedup(v: Vec<String>) -> (r: Vec<String>)
    ensures
        strictly_sorted(strings_view(r@)),
        strings_view(r@).to_set() == strings_view(v@).to_set(),
{
    let mut out: Vec<String> = Vec::new();
    let mut out_chars: Vec<Vec<char>> = Vec::new();
    let mut i: usize = 0;
    let ghost src = strings_view(v@);
    assert(strings_view(out@).to_set() =~= src.take(0).to_set());
    while i < v.len()
        invariant
            i <= v.len(),
            src == strings_view(v@),
            out.len() == out_chars.len(),
            forall|k: int| 0 <= k < out.len() ==> #[trigger] out_chars@[k]@ == out@[k]@,
            strictly_sorted(strings_view(out@)),
            strings_view(out@).to_set() == src.take(i as int).to_set(),
        decreases v.len() - i,
    {
        let s: String = v[i].clone();
        assert(s == v@[i as int]);
        let sc = chars_of(s.as_str());
        let mut j: usize = 0;
        while j < out.len() && chars_lt(&out_chars[j], &sc)
            invariant
                j <= out.len(),
                out.len() == out_chars.len(),
                forall|k: int| 0 <= k < out.len() ==> #[trigger] out_chars@[k]@ == out@[k]@,
                forall|k: int| 0 <= k < j ==> seq_lt(#[trigger] out@[k]@, sc@),
            decreases out.len() - j,
        {
            j += 1;
        }
        let ghost before = strings_view(out@);
        assert(src.take(i + 1) =~= src.take(i as int).push(sc@));
        proof {
            assert(src.len() == v@.len());
            assert(src[i as int] == v@[i as int]@);
            assert(sc@ == v@[i as int]@);
            lemma_push_to_set(src.take(i as int), sc@);
        }
        if j < out.len() && chars_eq(&out_chars[j], &sc) {
            assert(before[j as int] == sc@);
            assert(before.to_set().insert(sc@) =~= before.to_set());
        } else {
            proof {
                if j < out.len() {
                    lemma_seq_lt_trichotomy(out@[j as int]@, sc@);
                }
            }
            out.insert(j, s);
            out_chars.insert(j, sc);
            proof {
                let after = strings_view(out@);
                assert(after =~= before.insert(j as int, sc@));
                assert forall|a: int, b: int| 0 <= a < b < after.len() implies seq_lt(
                    #[trigger] after[a],
                    #[trigger] after[b],
                ) by {
                    if b < j {
                        assert(after[a] == before[a] && after[b] == before[b]);
                    } else if b == j {
                        assert(after[a] == before[a]);
                    } else if a == j {
                        assert(after[b] == before[b - 1]);
                        if b - 1 > j {
                            lemma_seq_lt_transitive(sc@, before[j as int], before[b - 1]);
                        }
                    } else if a < j {
                        assert(after[a] == before[a] && after[b] == before[b - 1]);
                    } else {
                        assert(after[a] == before[a - 1] && after[b] == before[b - 1]);
                    }
                }
                assert(after.to_set() =~= before.to_set().insert(sc@)) by {
                    assert forall|x: Seq<char>| after.to_set().contains(x) <==> before.to_set().insert(sc@).contains(x) by {
                        if after.to_set().contains(x) {
                            let k = choose|k: int| 0 <= k < after.len() && after[k] == x;
                            if k < j {
                                assert(before[k] == x);
                            } else if k > j {
                                assert(before[k - 1] == x);
                            }
                        }
                        if before.to_set().contains(x) {
                            let k = choose|k: int| 0 <= k < before.len() && before[k] == x;
                            if k < j {
                                assert(after[k] == x);
                            } else {
                                assert(after[k + 1] == x);
                            }
                        }
                        if x == sc@ {
                            assert(after[j as int] == x);
                        }
                    }
                }
            }
        }
        i += 1;
    }
    assert(src.take(v.len() as int) =~= src);
    out
}

} // verus!
