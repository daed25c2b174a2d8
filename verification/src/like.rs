//! What a search pattern matches under SQLite's `LIKE ... ESCAPE '\'`.
//!
//! `%` matches any run of characters, `_` any one character, `\` makes the
//! next character literal, and letters compare without regard to ASCII case,
//! as SQLite's built-in `LIKE` does. The law of this module is that the
//! pattern built for a search term matches exactly the texts that contain the
//! term: its wildcards and escapes never leak into the match.
use vstd::prelude::*;

use crate::query::{escape_like, like_char, like_pattern_spec};

verus! {

/// ASCII case folding, as SQLite's built-in `LIKE` applies it.
pub open spec fn fold_case(c: char) -> char {
    if 'A' as u32 <= c as u32 && c as u32 <= 'Z' as u32 {
        ((c as u32) + 32) as char
    } else {
        c
    }
}

/// Whether pattern `p` matches all of text `t`.
pub open spec fn like_match(p: Seq<char>, t: Seq<char>) -> bool
    decreases p.len(), t.len(),
{
    if p.len() == 0 {
        t.len() == 0
    } else if p[0] == '%' {
        like_match(p.drop_first(), t) || (t.len() > 0 && like_match(p, t.drop_first()))
    } else if p[0] == '_' {
        t.len() > 0 && like_match(p.drop_first(), t.drop_first())
    } else if p[0] == '\\' && p.len() >= 2 {
        t.len() > 0 && fold_case(t[0]) == fold_case(p[1]) && like_match(p.skip(2), t.drop_first())
    } else {
        t.len() > 0 && fold_case(t[0]) == fold_case(p[0]) && like_match(p.drop_first(), t.drop_first())
    }
}

/// `a` and `b` are the same text up to ASCII case.
pub open spec fn same_folded(a: Seq<char>, b: Seq<char>) -> bool {
    a.len() == b.len() && forall|j: int| 0 <= j < a.len() ==> fold_case(#[trigger] a[j]) == fold_case(b[j])
}

/// `t` contains `u`, up to ASCII case.
pub open spec fn contains_folded(t: Seq<char>, u: Seq<char>) -> bool {
    exists|i: int| 0 <= i && i + u.len() <= t.len() && #[trigger] same_folded(t.subrange(i, i + u.len()), u)
}

proof fn lemma_escape_append(a: Seq<char>, b: Seq<char>)
    ensures
        escape_like(a + b) == escape_like(a) + escape_like(b),
    decreases b.len(),
{
    if b.len() == 0 {
        assert(a + b =~= a);
        assert(escape_like(b) =~= Seq::<char>::empty());
        assert(escape_like(a) + escape_like(b) =~= escape_like(a));
    } else {
        lemma_escape_append(a, b.drop_last());
        assert((a + b).drop_last() =~= a + b.drop_last());
        assert((a + b).last() == b.last());
        assert(escape_like(a + b) =~= escape_like(a) + escape_like(b));
    }
}

proof fn lemma_escape_first(u: Seq<char>)
    requires
        u.len() > 0,
    ensures
        escape_like(u) == like_char(u[0]) + escape_like(u.drop_first()),
{
    let head = seq![u[0]];
    assert(head + u.drop_first() =~= u);
    lemma_escape_append(head, u.drop_first());
    assert(head.drop_last() =~= Seq::<char>::empty());
    assert(escape_like(Seq::<char>::empty()) == Seq::<char>::empty());
    assert(escape_like(head) == escape_like(head.drop_last()) + like_char(head.last()));
    assert(head.last() == u[0]);
    assert(escape_like(head) =~= like_char(u[0]));
}

/// A lone `%` matches every text.
proof fn lemma_percent_matches_all(t: Seq<char>)
    ensures
        like_match(seq!['%'], t),
    decreases t.len(),
{
    let p = seq!['%'];
    assert(p.drop_first() =~= Seq::<char>::empty());
    if t.len() == 0 {
        assert(like_match(p.drop_first(), t));
    } else {
        lemma_percent_matches_all(t.drop_first());
        assert(like_match(p, t.drop_first()));
    }
}

/// The escaped term at the head of a pattern matches exactly the term, up to
/// case, at the head of the text.
proof fn lemma_escaped_prefix(u: Seq<char>, rest: Seq<char>, t: Seq<char>)
    ensures
        like_match(escape_like(u) + rest, t) <==> (t.len() >= u.len() && same_folded(
            t.take(u.len() as int),
            u,
        ) && like_match(rest, t.skip(u.len() as int))),
    decreases u.len(),
{
    if u.len() == 0 {
        assert(escape_like(u) + rest =~= rest);
        assert(t.skip(0) =~= t);
        assert(same_folded(t.take(0), u));
    } else {
        let c = u[0];
        let u1 = u.drop_first();
        lemma_escape_first(u);
        let p = escape_like(u) + rest;
        let p1 = escape_like(u1) + rest;
        if t.len() > 0 {
            lemma_escaped_prefix(u1, rest, t.drop_first());
            let t1 = t.drop_first();
            if t.len() >= u.len() {
                assert(t.skip(u.len() as int) =~= t1.skip(u1.len() as int));
                let a = t.take(u.len() as int);
                let a1 = t1.take(u1.len() as int);
                assert(same_folded(a, u) <==> (fold_case(t[0]) == fold_case(c) && same_folded(
                    a1,
                    u1,
                ))) by {
                    if same_folded(a, u) {
                        assert(fold_case(a[0]) == fold_case(u[0]));
                        assert forall|j: int| 0 <= j < a1.len() implies fold_case(#[trigger] a1[j])
                            == fold_case(u1[j]) by {
                            assert(a1[j] == a[j + 1]);
                            assert(fold_case(a[j + 1]) == fold_case(u[j + 1]));
                        }
                    }
                    if fold_case(t[0]) == fold_case(c) && same_folded(a1, u1) {
                        assert forall|j: int| 0 <= j < a.len() implies fold_case(#[trigger] a[j])
                            == fold_case(u[j]) by {
                            if j > 0 {
                                assert(a[j] == a1[j - 1]);
                                assert(fold_case(a1[j - 1]) == fold_case(u1[j - 1]));
                            }
                        }
                    }
                }
            }
        }
        if c == '%' || c == '_' || c == '\\' {
            assert(p[0] == '\\');
            assert(p[1] == c);
            assert(p.skip(2) =~= p1);
        } else {
            assert(p[0] == c);
            assert(p.drop_first() =~= p1);
        }
    }
}

/// A leading `%` matches when the rest of the pattern matches some suffix.
proof fn lemma_leading_percent(q: Seq<char>, t: Seq<char>)
    ensures
        like_match(seq!['%'] + q, t) <==> exists|k: int|
            0 <= k <= t.len() && #[trigger] like_match(q, t.skip(k)),
    decreases t.len(),
{
    let p = seq!['%'] + q;
    assert(p[0] == '%');
    assert(p.drop_first() =~= q);
    assert(t.skip(0) =~= t);
    assert(like_match(p, t) == (like_match(q, t) || (t.len() > 0 && like_match(p, t.drop_first()))));
    if like_match(p, t) {
        if like_match(q, t) {
            assert(like_match(q, t.skip(0)));
        } else {
            let t1 = t.drop_first();
            lemma_leading_percent(q, t1);
            let k1 = choose|k: int| 0 <= k <= t1.len() && #[trigger] like_match(q, t1.skip(k));
            assert(t.skip(k1 + 1) =~= t1.skip(k1));
            assert(like_match(q, t.skip(k1 + 1)));
        }
    }
    if exists|k: int| 0 <= k <= t.len() && #[trigger] like_match(q, t.skip(k)) {
        let k = choose|k: int| 0 <= k <= t.len() && #[trigger] like_match(q, t.skip(k));
        if k == 0 {
            assert(like_match(q, t));
        } else {
            let t1 = t.drop_first();
            lemma_leading_percent(q, t1);
            assert(t1.skip(k - 1) =~= t.skip(k));
            assert(like_match(q, t1.skip(k - 1)));
            assert(like_match(p, t1));
        }
    }
}

/// The pattern built for a search term matches exactly the texts that
/// contain the term, up to ASCII case: `%` and `_` in the term match only
/// themselves, and `\` stays a plain character.
pub proof fn law_search_pattern_matches_containing(term: Seq<char>, text: Seq<char>)
    ensures
        like_match(like_pattern_spec(term), text) <==> contains_folded(text, term),
{
    let e = escape_like(term);
    let q = e + seq!['%'];
    assert(like_pattern_spec(term) =~= seq!['%'] + q);
    lemma_leading_percent(q, text);
    let n = term.len() as int;
    if like_match(like_pattern_spec(term), text) {
        let k = choose|k: int| 0 <= k <= text.len() && #[trigger] like_match(q, text.skip(k));
        lemma_escaped_prefix(term, seq!['%'], text.skip(k));
        assert(text.skip(k).take(n) =~= text.subrange(k, k + n));
        assert(same_folded(text.subrange(k, k + n), term));
    }
    if contains_folded(text, term) {
        let i = choose|i: int| 0 <= i && i + n <= text.len() && #[trigger] same_folded(
            text.subrange(i, i + n),
            term,
        );
        lemma_escaped_prefix(term, seq!['%'], text.skip(i));
        assert(text.skip(i).take(n) =~= text.subrange(i, i + n));
        lemma_percent_matches_all(text.skip(i).skip(n));
        assert(like_match(q, text.skip(i)));
    }
}

/// A search for a longer term matches no text that a search for a part of
/// it misses: every text a pattern for `long` matches, the pattern for any
/// `short` that occurs in `long` matches too.
pub proof fn law_longer_term_matches_fewer(short: Seq<char>, long: Seq<char>, at: int, text: Seq<char>)
    requires
        0 <= at,
        at + short.len() <= long.len(),
        long.subrange(at, at + short.len()) == short,
    ensures
        like_match(like_pattern_spec(long), text) ==> like_match(like_pattern_spec(short), text),
{
    law_search_pattern_matches_containing(long, text);
    law_search_pattern_matches_containing(short, text);
    if like_match(like_pattern_spec(long), text) {
        let n = long.len() as int;
        let m = short.len() as int;
        let i = choose|i: int| 0 <= i && i + n <= text.len() && #[trigger] same_folded(
            text.subrange(i, i + n),
            long,
        );
        let a = text.subrange(i, i + n);
        let b = text.subrange(i + at, i + at + m);
        assert forall|k: int| 0 <= k < m implies fold_case(#[trigger] b[k]) == fold_case(short[k]) by {
            assert(b[k] == a[at + k]);
            assert(fold_case(a[at + k]) == fold_case(long[at + k]));
            assert(long.subrange(at, at + m)[k] == long[at + k]);
        }
        assert(same_folded(b, short));
    }
}

} // verus!
