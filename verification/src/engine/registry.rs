//! Laws of the language registry: names are found without regard to case,
//! every listed name is found, and shebang lines name their interpreter in
//! each of their usual forms.
use vstd::prelude::*;

use crate::engine::language::LANGUAGE_COUNT;
use crate::engine::language::language_view;
use crate::engine::language::lemma_language_names;
use crate::engine::language::lemma_names_lookup_finds;
use crate::engine::language::name_language;
use crate::engine::language::names_table;
use crate::engine::text::ascii_lower;
use crate::engine::language::shebang_language;
use crate::engine::language::shebang_table;
use crate::engine::language::table_lookup;
use crate::engine::text::after_last_slash;
use crate::engine::text::first_two_words;
use crate::engine::text::is_unicode_whitespace;
use crate::engine::text::last_segment;
use crate::engine::text::leading_word;
use crate::engine::text::leading_ws;

verus! {

/// Law: looking a language up by name ignores ASCII case: names that agree
/// once lower-cased find the same language.
pub proof fn lemma_name_case_insensitive(a: Seq<char>, b: Seq<char>)
    requires
        ascii_lower(a) == ascii_lower(b),
    ensures
        name_language(a) == name_language(b),
{
}

/// Law: every display name of the supported languages is found by name: as the
/// first language whose name agrees with it once lower-cased, which is that
/// language itself unless an earlier name agrees with it.
pub proof fn lemma_names_supported(id: int)
    requires
        0 <= id < LANGUAGE_COUNT,
    ensures
        name_language(names_table()[id]@) matches Some(j) && j <= id
            && ascii_lower(names_table()[j as int]@) == ascii_lower(names_table()[id]@),
        (forall|k: int| 0 <= k < id ==> ascii_lower(#[trigger] names_table()[k]@) != ascii_lower(names_table()[id]@))
            ==> name_language(names_table()[id]@) == Some(id as usize),
{
    crate::engine::language::lemma_names_len();
    lemma_names_lookup_finds(names_table(), 0, id);
}

} // verus!

verus! {

/// No character of `s` is whitespace.
pub open spec fn no_ws(s: Seq<char>) -> bool {
    forall|k: int| 0 <= k < s.len() ==> !is_unicode_whitespace(#[trigger] s[k])
}

/// A path prefix of an interpreter: empty, or ending with `/`, without whitespace.
pub open spec fn path_prefix(p: Seq<char>) -> bool {
    no_ws(p) && (p.len() == 0 || p.last() == '/')
}

/// An interpreter name: a non-empty word without `/`.
pub open spec fn interpreter_name(x: Seq<char>) -> bool {
    x.len() > 0 && no_ws(x) && !x.contains('/')
}

proof fn lemma_word_then(w: Seq<char>, r: Seq<char>)
    requires
        no_ws(w),
        r.len() == 0 || is_unicode_whitespace(r[0]),
    ensures
        leading_word(w + r) == w.len(),
    decreases w.len(),
{
    if w.len() == 0 {
        assert(w + r =~= r);
    } else {
        assert((w + r)[0] == w[0]);
        assert((w + r).drop_first() =~= w.drop_first() + r);
        assert(no_ws(w.drop_first())) by {
            assert forall|k: int| 0 <= k < w.drop_first().len() implies !is_unicode_whitespace(#[trigger] w.drop_first()[k]) by {
                assert(w.drop_first()[k] == w[k + 1]);
            }
        }
        lemma_word_then(w.drop_first(), r);
    }
}

proof fn lemma_after_slash(p: Seq<char>, x: Seq<char>)
    requires
        p.len() == 0 || p.last() == '/',
        !x.contains('/'),
    ensures
        after_last_slash(p + x) == p.len(),
    decreases x.len(),
{
    if x.len() == 0 {
        assert(p + x =~= p);
        if p.len() > 0 {
            assert(after_last_slash(p) == p.len());
        }
    } else {
        assert((p + x).last() == x.last());
        assert(x.last() == x[x.len() - 1]);
        assert((p + x).drop_last() =~= p + x.drop_last());
        assert(!x.drop_last().contains('/')) by {
            if x.drop_last().contains('/') {
                let k = choose|k: int| 0 <= k < x.drop_last().len() && x.drop_last()[k] == '/';
                assert(x[k] == '/');
            }
        }
        lemma_after_slash(p, x.drop_last());
    }
}

/// The first two words of a shebang line body that starts with a word.
proof fn lemma_first_word(body: Seq<char>, w: Seq<char>, r: Seq<char>)
    requires
        body == w + r,
        w.len() > 0,
        no_ws(w),
        r.len() == 0 || is_unicode_whitespace(r[0]),
    ensures
        first_two_words(body).0 == Some(w),
        r.len() == 0 ==> first_two_words(body).1 is None,
        r.len() > 0 && r.skip(leading_ws(r) as int).len() > 0 ==> first_two_words(body).1 == Some(
            r.skip(leading_ws(r) as int).take(leading_word(r.skip(leading_ws(r) as int)) as int),
        ),
{
    assert(body[0] == w[0]);
    assert(leading_ws(body) == 0);
    assert(body.skip(0) =~= body);
    lemma_word_then(w, r);
    assert(body.take(w.len() as int) =~= w);
    assert(body.skip(w.len() as int) =~= r);
    if r.len() == 0 {
        assert(leading_ws(r) == 0);
        assert(r.skip(0) =~= r);
    }
}

/// Law: a shebang line names its interpreter in any of its usual forms. After
/// `#!` and a path prefix (`/usr/bin/`, or none), the interpreter `x` alone,
/// `x` followed by arguments, and `env x` all select the language the
/// interpreter table gives `x`; `env` with no interpreter, and a line that does
/// not start with `#!`, select none.
pub proof fn lemma_shebang_forms(p: Seq<char>, x: Seq<char>, args: Seq<char>, line: Seq<char>)
    requires
        path_prefix(p),
        interpreter_name(x),
        x != seq!['e', 'n', 'v'],
    ensures
        shebang_language(seq!['#', '!'] + p + x) == table_lookup(shebang_table(), x),
        shebang_language(seq!['#', '!'] + p + x + seq![' '] + args) == table_lookup(shebang_table(), x),
        shebang_language(seq!['#', '!'] + p + seq!['e', 'n', 'v', ' '] + x) == table_lookup(shebang_table(), x),
        shebang_language(seq!['#', '!'] + p + seq!['e', 'n', 'v']) is None,
        !(line.len() >= 2 && line[0] == '#' && line[1] == '!') ==> shebang_language(line) is None,
{
    assert(is_unicode_whitespace(' '));
    let w = p + x;
    assert(no_ws(w)) by {
        assert forall|k: int| 0 <= k < w.len() implies !is_unicode_whitespace(#[trigger] w[k]) by {
            if k < p.len() {
                assert(w[k] == p[k]);
            } else {
                assert(w[k] == x[k - p.len()]);
            }
        }
    }
    lemma_after_slash(p, x);
    assert(last_segment(w) =~= x);
    // `#!` p x
    let l1 = seq!['#', '!'] + p + x;
    assert(l1.skip(2) =~= w + Seq::<char>::empty());
    lemma_first_word(l1.skip(2), w, Seq::<char>::empty());
    // `#!` p x ` ` args
    let r2 = seq![' '] + args;
    let l2 = seq!['#', '!'] + p + x + seq![' '] + args;
    assert(r2[0] == ' ');
    assert(l2.skip(2) =~= w + r2);
    lemma_first_word(l2.skip(2), w, r2);
    // `#!` p `env` ` ` x
    let e = seq!['e', 'n', 'v'];
    let we = p + e;
    assert(no_ws(we)) by {
        assert forall|k: int| 0 <= k < we.len() implies !is_unicode_whitespace(#[trigger] we[k]) by {
            if k < p.len() {
                assert(we[k] == p[k]);
            } else {
                assert(we[k] == e[k - p.len()]);
            }
        }
    }
    assert(!e.contains('/')) by {
        if e.contains('/') {
            let k = choose|k: int| 0 <= k < e.len() && e[k] == '/';
            assert(k == 0 || k == 1 || k == 2);
        }
    }
    lemma_after_slash(p, e);
    assert(last_segment(we) =~= e);
    let r3 = seq![' '] + x;
    let l3 = seq!['#', '!'] + p + seq!['e', 'n', 'v', ' '] + x;
    assert(r3[0] == ' ');
    assert(l3.skip(2) =~= we + r3);
    lemma_first_word(l3.skip(2), we, r3);
    assert(r3.drop_first() =~= x);
    assert(leading_ws(r3) == 1) by {
        assert(x[0] == x[0]);
        assert(!is_unicode_whitespace(x[0]));
        assert(leading_ws(x) == 0);
    }
    assert(r3.skip(1) =~= x);
    assert(x + Seq::<char>::empty() =~= x);
    lemma_word_then(x, Seq::<char>::empty());
    assert(leading_word(x) == x.len());
    assert(x.take(x.len() as int) =~= x);
    assert(first_two_words(l3.skip(2)).1 == Some(x));
    // `#!` p `env`
    let l4 = seq!['#', '!'] + p + seq!['e', 'n', 'v'];
    assert(l4.skip(2) =~= we + Seq::<char>::empty());
    lemma_first_word(l4.skip(2), we, Seq::<char>::empty());
}

} // verus!

verus! {

/// Law: every supported language name is supported, and looking it up by name
/// finds a language whose display name agrees with it once lower-cased.
pub proof fn lemma_supported_names(id: int)
    requires
        0 <= id < LANGUAGE_COUNT,
    ensures
        name_language(names_table()[id]@) is Some,
        ascii_lower(language_view(name_language(names_table()[id]@).unwrap() as int).name@)
            == ascii_lower(names_table()[id]@),
{
    lemma_names_supported(id);
    let j = name_language(names_table()[id]@).unwrap() as int;
    lemma_language_names(j);
}

} // verus!

verus! {

/// Every character of `w` is whitespace.
pub open spec fn all_ws(w: Seq<char>) -> bool {
    forall|k: int| 0 <= k < w.len() ==> is_unicode_whitespace(#[trigger] w[k])
}

proof fn lemma_leading_ws_prepend(w: Seq<char>, s: Seq<char>)
    requires
        all_ws(w),
    ensures
        leading_ws(w + s) == w.len() + leading_ws(s),
    decreases w.len(),
{
    if w.len() == 0 {
        assert(w + s =~= s);
    } else {
        assert((w + s)[0] == w[0]);
        assert((w + s).drop_first() =~= w.drop_first() + s);
        assert(all_ws(w.drop_first())) by {
            assert forall|k: int| 0 <= k < w.drop_first().len() implies is_unicode_whitespace(#[trigger] w.drop_first()[k]) by {
                assert(w.drop_first()[k] == w[k + 1]);
            }
        }
        lemma_leading_ws_prepend(w.drop_first(), s);
    }
}

/// Whitespace in front of text does not change its first two words.
proof fn lemma_first_two_words_prepend(w: Seq<char>, s: Seq<char>)
    requires
        all_ws(w),
    ensures
        first_two_words(w + s) == first_two_words(s),
{
    lemma_leading_ws_prepend(w, s);
    crate::engine::text::lemma_leading_ws(s);
    assert((w + s).skip(leading_ws(w + s) as int) =~= s.skip(leading_ws(s) as int));
}

/// Law: whitespace between `#!` and the interpreter does not change the
/// language a shebang line selects.
pub proof fn lemma_shebang_space(w: Seq<char>, s: Seq<char>)
    requires
        all_ws(w),
    ensures
        shebang_language(seq!['#', '!'] + w + s) == shebang_language(seq!['#', '!'] + s),
{
    let a = seq!['#', '!'] + w + s;
    let b = seq!['#', '!'] + s;
    assert(a.skip(2) =~= w + s);
    assert(b.skip(2) =~= s);
    assert(a[0] == '#' && a[1] == '!');
    assert(b[0] == '#' && b[1] == '!');
    lemma_first_two_words_prepend(w, s);
}

/// Law: after `#!`, any whitespace, and a path prefix, the interpreter `x`
/// selects the language the interpreter table gives it (so `#! /bin/sh` is
/// a shell script).
pub proof fn lemma_shebang_spaced_path(w: Seq<char>, p: Seq<char>, x: Seq<char>)
    requires
        all_ws(w),
        path_prefix(p),
        interpreter_name(x),
        x != seq!['e', 'n', 'v'],
    ensures
        shebang_language(seq!['#', '!'] + w + (p + x)) == table_lookup(shebang_table(), x),
{
    lemma_shebang_space(w, p + x);
    lemma_shebang_forms(p, x, Seq::empty(), seq![]);
    assert(seq!['#', '!'] + (p + x) =~= seq!['#', '!'] + p + x);
}

} // verus!
