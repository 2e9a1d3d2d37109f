//! Fuzzy search: which titles match a query, and the order of the matches.
use vstd::prelude::*;
use fuzzy_matcher::FuzzyMatcher;

verus! {

pub open spec fn is_ascii_upper(c: char) -> bool {
    'A' <= c <= 'Z'
}

pub open spec fn ascii_lower(c: char) -> char {
    if is_ascii_upper(c) { ((c as u32) + 32) as char } else { c }
}

/// Smart case: a query with an ASCII capital letter matches case-sensitively.
pub open spec fn has_ascii_upper(p: Seq<char>) -> bool {
    exists|k: int| 0 <= k < p.len() && is_ascii_upper(#[trigger] p[k])
}

pub open spec fn chars_match(a: char, b: char, case_sensitive: bool) -> bool {
    if case_sensitive { a == b } else { ascii_lower(a) == ascii_lower(b) }
}

/// Whether `pattern` occurs in `choice` as a subsequence, characters
/// compared as `chars_match` does.
pub open spec fn is_subsequence(choice: Seq<char>, pattern: Seq<char>, case_sensitive: bool) -> bool
    decreases choice.len(),
{
    if pattern.len() == 0 {
        true
    } else if choice.len() == 0 {
        false
    } else if chars_match(choice[0], pattern[0], case_sensitive) {
        is_subsequence(choice.drop_first(), pattern.drop_first(), case_sensitive)
    } else {
        is_subsequence(choice.drop_first(), pattern, case_sensitive)
    }
}

/// Whether the skim matcher finds `pattern` in `choice`.
pub open spec fn skim_matches(choice: Seq<char>, pattern: Seq<char>) -> bool {
    is_subsequence(choice, pattern, has_ascii_upper(pattern))
}

/// The score that `SkimMatcherV2::default().fuzzy_match` gives a match.
pub uninterp spec fn skim_score(choice: Seq<char>, pattern: Seq<char>) -> i64;

/// `SkimMatcherV2::default().fuzzy_match(choice, pattern)`. The contract
/// states when there is a match, as the matcher's source decides it (the
/// query's characters in order, case-insensitive for ASCII unless the
/// query has an ASCII capital), that an empty query scores 0, and names
/// the score of other matches without stating it.
#[verifier::external_body]
pub(crate) fn fuzzy_score(choice: &str, pattern: &str) -> (r: Option<i64>)
    ensures
        r is Some <==> skim_matches(choice@, pattern@),
        r matches Some(s) ==> s == skim_score(choice@, pattern@),
        pattern@.len() == 0 ==> r == Some(0i64),
{
    fuzzy_matcher::skim::SkimMatcherV2::default().fuzzy_match(choice, pattern)
}

/// `r` with `x` placed after every entry scoring at least as much as `x`
/// and before the entries behind them that score less.
pub open spec fn insert_ranked(r: Seq<(i64, usize)>, x: (i64, usize)) -> Seq<(i64, usize)>
    decreases r.len(),
{
    if r.len() == 0 {
        seq![x]
    } else if r.last().0 >= x.0 {
        r.push(x)
    } else {
        insert_ranked(r.drop_last(), x).push(r.last())
    }
}

/// The entries ordered by score, highest first; equal scores keep their
/// order (a stable sort).
pub open spec fn ranked(s: Seq<(i64, usize)>) -> Seq<(i64, usize)>
    decreases s.len(),
{
    if s.len() == 0 {
        Seq::empty()
    } else {
        insert_ranked(ranked(s.drop_last()), s.last())
    }
}

proof fn lemma_insert_at(r: Seq<(i64, usize)>, x: (i64, usize), j: int)
    requires
        0 <= j <= r.len(),
        j == 0 || r[j - 1].0 >= x.0,
        forall|k: int| j <= k < r.len() ==> r[k].0 < x.0,
    ensures
        insert_ranked(r, x) == r.take(j) + seq![x] + r.skip(j),
    decreases r.len(),
{
    if r.len() == 0 {
        assert(r.take(j) + seq![x] + r.skip(j) =~= seq![x]);
    } else if j == r.len() {
        assert(r.take(j) + seq![x] + r.skip(j) =~= r.push(x));
    } else {
        let d = r.drop_last();
        assert forall|k: int| j <= k < d.len() implies d[k].0 < x.0 by {
            assert(d[k] == r[k]);
        }
        lemma_insert_at(d, x, j);
        assert(d.take(j) =~= r.take(j));
        assert((d.take(j) + seq![x] + d.skip(j)).push(r.last()) =~= r.take(j) + seq![x] + r.skip(j));
    }
}

/// Whether the entries are ordered by score, highest first.
pub open spec fn by_score_desc(s: Seq<(i64, usize)>) -> bool {
    forall|i: int, j: int| 0 <= i < j < s.len() ==> s[i].0 >= s[j].0
}

/// The entries that score `c`.
pub open spec fn has_score(c: i64) -> spec_fn((i64, usize)) -> bool {
    |p: (i64, usize)| p.0 == c
}

proof fn lemma_insert_bound(r: Seq<(i64, usize)>, x: (i64, usize), b: i64)
    requires
        forall|k: int| 0 <= k < r.len() ==> r[k].0 >= b,
        x.0 >= b,
    ensures
        insert_ranked(r, x).len() == r.len() + 1,
        forall|k: int| 0 <= k < insert_ranked(r, x).len() ==> insert_ranked(r, x)[k].0 >= b,
    decreases r.len(),
{
    if r.len() > 0 && r.last().0 < x.0 {
        let d = r.drop_last();
        lemma_insert_bound(d, x, b);
    }
}

proof fn lemma_insert_sorted(r: Seq<(i64, usize)>, x: (i64, usize))
    requires
        by_score_desc(r),
    ensures
        by_score_desc(insert_ranked(r, x)),
    decreases r.len(),
{
    if r.len() == 0 {
    } else if r.last().0 >= x.0 {
        let t = r.push(x);
        assert forall|i: int, j: int| 0 <= i < j < t.len() implies t[i].0 >= t[j].0 by {
            if j == r.len() {
                assert(r[i].0 >= r[r.len() - 1].0);
            }
        }
    } else {
        let d = r.drop_last();
        lemma_insert_sorted(d, x);
        lemma_insert_bound(d, x, r.last().0);
        let t = insert_ranked(d, x).push(r.last());
        assert forall|i: int, j: int| 0 <= i < j < t.len() implies t[i].0 >= t[j].0 by {
            if j < t.len() - 1 {
                assert(t[i] == insert_ranked(d, x)[i]);
                assert(t[j] == insert_ranked(d, x)[j]);
            } else {
                assert(t[i] == insert_ranked(d, x)[i]);
            }
        }
    }
}

proof fn lemma_insert_multiset(r: Seq<(i64, usize)>, x: (i64, usize))
    ensures
        insert_ranked(r, x).to_multiset() == r.to_multiset().insert(x),
    decreases r.len(),
{
    broadcast use vstd::seq_lib::to_multiset_build;

    if r.len() == 0 {
        assert(seq![x] =~= r.push(x));
    } else if r.last().0 >= x.0 {
    } else {
        let d = r.drop_last();
        lemma_insert_multiset(d, x);
        assert(r =~= d.push(r.last()));
        assert(insert_ranked(r, x).to_multiset() =~= r.to_multiset().insert(x));
    }
}

proof fn lemma_insert_filter(r: Seq<(i64, usize)>, x: (i64, usize), c: i64)
    ensures
        insert_ranked(r, x).filter(has_score(c)) == if x.0 == c {
            r.filter(has_score(c)).push(x)
        } else {
            r.filter(has_score(c))
        },
    decreases r.len(),
{
    let p = has_score(c);
    if r.len() == 0 {
        assert(seq![x] =~= r.push(x));
        r.lemma_filter_push(x, p);
    } else if r.last().0 >= x.0 {
        r.lemma_filter_push(x, p);
    } else {
        let d = r.drop_last();
        lemma_insert_filter(d, x, c);
        assert(r =~= d.push(r.last()));
        d.lemma_filter_push(r.last(), p);
        insert_ranked(d, x).lemma_filter_push(r.last(), p);
    }
}

/// The ranked entries are ordered by score, highest first, and are the
/// entries given, each as often as it was given.
pub proof fn lemma_ranked_orders_by_score(s: Seq<(i64, usize)>)
    ensures
        by_score_desc(ranked(s)),
        ranked(s).to_multiset() == s.to_multiset(),
    decreases s.len(),
{
    broadcast use vstd::seq_lib::to_multiset_build;

    if s.len() > 0 {
        let d = s.drop_last();
        lemma_ranked_orders_by_score(d);
        lemma_insert_sorted(ranked(d), s.last());
        lemma_insert_multiset(ranked(d), s.last());
        assert(s =~= d.push(s.last()));
        assert(ranked(s).to_multiset() =~= s.to_multiset());
    } else {
        assert(s =~= Seq::<(i64, usize)>::empty());
        assert(ranked(s) =~= s);
    }
}

/// Ranking is stable: the entries of any one score keep the order in which
/// they were given.
pub proof fn lemma_ranked_stable(s: Seq<(i64, usize)>, c: i64)
    ensures
        ranked(s).filter(has_score(c)) == s.filter(has_score(c)),
    decreases s.len(),
{
    if s.len() > 0 {
        let d = s.drop_last();
        lemma_ranked_stable(d, c);
        lemma_insert_filter(ranked(d), s.last(), c);
        assert(s =~= d.push(s.last()));
        d.lemma_filter_push(s.last(), has_score(c));
    }
}

/// The indices of the entries in ranked order.
pub fn rank_by_score(scored: &Vec<(i64, usize)>) -> (r: Vec<usize>)
    ensures
        r@ == ranked(scored@).map_values(|p: (i64, usize)| p.1),
{
    let mut acc: Vec<(i64, usize)> = Vec::new();
    let mut i: usize = 0;
    while i < scored.len()
        invariant
            i <= scored.len(),
            acc@ == ranked(scored@.take(i as int)),
        decreases scored.len() - i,
    {
        let x = scored[i];
        let mut j: usize = acc.len();
        while j > 0 && acc[j - 1].0 < x.0
            invariant
                j <= acc.len(),
                forall|k: int| j <= k < acc.len() ==> acc@[k].0 < x.0,
            decreases j,
        {
            j = j - 1;
        }
        proof {
            lemma_insert_at(acc@, x, j as int);
            assert(scored@.take(i + 1).drop_last() =~= scored@.take(i as int));
            assert(scored@.take(i + 1).last() == x);
        }
        acc.insert(j, x);
        assert(acc@ =~= ranked(scored@.take(i + 1)));
        i = i + 1;
    }
    assert(scored@.take(scored.len() as int) =~= scored@);
    let mut r: Vec<usize> = Vec::new();
    let mut k: usize = 0;
    while k < acc.len()
        invariant
            k <= acc.len(),
            r@ == acc@.take(k as int).map_values(|p: (i64, usize)| p.1),
        decreases acc.len() - k,
    {
        r.push(acc[k].1);
        k = k + 1;
        assert(r@ =~= acc@.take(k as int).map_values(|p: (i64, usize)| p.1));
    }
    assert(acc@.take(acc.len() as int) =~= acc@);
    r
}

} // verus!
