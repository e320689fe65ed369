//! The query parser: one line of client input becomes a routable query, or
//! nothing.
//!
//! A line is a query when it holds exactly one whitespace-separated token and
//! that token has at least two `.`-separated labels. The trailing label is the
//! suffix that selects the upstream.

use vstd::prelude::*;

verus! {

/// Whether `c` has Unicode's `White_Space` property.
pub uninterp spec fn white_space(c: char) -> bool;

/// Relies on `char::is_whitespace`: true exactly for the characters with the
/// `White_Space` property.
#[verifier::external_body]
fn is_space(c: char) -> (r: bool)
    ensures
        r == white_space(c),
{
    c.is_whitespace()
}

/// The length of the run of non-whitespace characters that begins `s`.
pub open spec fn run_len(s: Seq<char>) -> nat
    decreases s.len(),
{
    if s.len() == 0 || white_space(s[0]) {
        0
    } else {
        1 + run_len(s.drop_first())
    }
}

/// The whitespace-separated tokens of `s`: its maximal runs of characters
/// that are not whitespace, in order.
pub open spec fn tokens(s: Seq<char>) -> Seq<Seq<char>>
    decreases s.len(),
    via tokens_decreases
{
    if s.len() == 0 {
        seq![]
    } else if white_space(s[0]) {
        tokens(s.drop_first())
    } else {
        let n = run_len(s) as int;
        seq![s.take(n)] + tokens(s.skip(n))
    }
}

#[via_fn]
proof fn tokens_decreases(s: Seq<char>) {
    if s.len() > 0 && !white_space(s[0]) {
        lemma_run_len_bounds(s);
    }
}

/// The `.`-separated labels of `t`, empty ones included: `k` dots make
/// `k + 1` labels.
pub open spec fn labels(t: Seq<char>) -> Seq<Seq<char>>
    decreases t.len(),
{
    if t.len() == 0 {
        seq![seq![]]
    } else {
        let init = labels(t.drop_last());
        if t.last() == '.' {
            init.push(seq![])
        } else {
            init.update(init.len() - 1, init.last().push(t.last()))
        }
    }
}

/// Whether a line is a query: one token, of two labels or more.
pub open spec fn routable(s: Seq<char>) -> bool {
    tokens(s).len() == 1 && labels(tokens(s)[0]).len() >= 2
}

/// The trailing label of the single token of a line.
pub open spec fn suffix_of(s: Seq<char>) -> Seq<char> {
    labels(tokens(s)[0]).last()
}

proof fn lemma_run_len_bounds(s: Seq<char>)
    ensures
        run_len(s) <= s.len(),
        s.len() > 0 && !white_space(s[0]) ==> run_len(s) >= 1,
    decreases s.len(),
{
    if s.len() > 0 && !white_space(s[0]) {
        lemma_run_len_bounds(s.drop_first());
    }
}

/// A run of `m` non-whitespace characters that ends at whitespace or at the
/// end has length `m`.
proof fn lemma_run_len_exact(s: Seq<char>, m: int)
    requires
        0 <= m <= s.len(),
        forall|k: int| 0 <= k < m ==> !white_space(#[trigger] s[k]),
        m == s.len() || white_space(s[m]),
    ensures
        run_len(s) == m,
    decreases m,
{
    if m > 0 {
        let t = s.drop_first();
        assert forall|k: int| 0 <= k < m - 1 implies !white_space(#[trigger] t[k]) by {
            assert(t[k] == s[k + 1]);
        }
        assert(m - 1 == t.len() || t[m - 1] == s[m]);
        lemma_run_len_exact(t, m - 1);
    }
}

proof fn lemma_labels_nonempty(t: Seq<char>)
    ensures
        labels(t).len() >= 1,
    decreases t.len(),
{
    if t.len() > 0 {
        lemma_labels_nonempty(t.drop_last());
    }
}

/// A token without a dot is its own single label.
pub proof fn lemma_labels_no_dot(t: Seq<char>)
    requires
        forall|j: int| 0 <= j < t.len() ==> t[j] != '.',
    ensures
        labels(t) == seq![t],
    decreases t.len(),
{
    if t.len() > 0 {
        let u = t.drop_last();
        assert forall|j: int| 0 <= j < u.len() implies u[j] != '.' by {
            assert(u[j] == t[j]);
        }
        lemma_labels_no_dot(u);
        assert(t.last() == t[t.len() - 1]);
        assert(u.push(t.last()) =~= t);
        assert(labels(t) =~= seq![t]);
    } else {
        assert(t =~= Seq::<char>::empty());
        assert(labels(t) =~= seq![t]);
    }
}

/// With its last dot at `k`, a token has two labels or more, and its
/// trailing label is what follows that dot.
pub proof fn lemma_labels_last_dot(t: Seq<char>, k: int)
    requires
        0 <= k < t.len(),
        t[k] == '.',
        forall|j: int| k < j < t.len() ==> t[j] != '.',
    ensures
        labels(t).len() >= 2,
        labels(t).last() == t.skip(k + 1),
    decreases t.len(),
{
    let u = t.drop_last();
    lemma_labels_nonempty(u);
    if k == t.len() - 1 {
        assert(labels(t).last() =~= t.skip(k + 1));
    } else {
        lemma_labels_last_dot(u, k);
        assert(labels(t).last() =~= t.skip(k + 1));
    }
}

/// A query: the line's single token and its trailing label.
#[derive(Clone, Debug, PartialEq, Eq)]
pub struct Query {
    pub identifier: String,
    pub suffix: String,
}

/// The characters of `line`, in order.
fn chars_of(line: &str) -> (r: Vec<char>)
    ensures
        r@ == line@,
{
    let mut r: Vec<char> = Vec::new();
    for c in it: line.chars()
        invariant
            r@ == it.seq().take(it.index()),
    {
        r.push(c);
    }
    r
}

proof fn lemma_tokens_skip_space(s: Seq<char>, i: int)
    requires
        0 <= i < s.len(),
        white_space(s[i]),
    ensures
        tokens(s.skip(i)) == tokens(s.skip(i + 1)),
{
    assert(s.skip(i)[0] == s[i]);
    assert(s.skip(i).drop_first() =~= s.skip(i + 1));
}

proof fn lemma_tokens_skip_run(s: Seq<char>, a: int, b: int)
    requires
        0 <= a < b <= s.len(),
        forall|k: int| a <= k < b ==> !white_space(#[trigger] s[k]),
        b == s.len() || white_space(s[b]),
    ensures
        tokens(s.skip(a)) == seq![s.subrange(a, b)] + tokens(s.skip(b)),
{
    let t = s.skip(a);
    assert forall|k: int| 0 <= k < b - a implies !white_space(#[trigger] t[k]) by {
        assert(t[k] == s[a + k]);
    }
    assert(b - a == t.len() || t[b - a] == s[b]);
    lemma_run_len_exact(t, b - a);
    assert(t[0] == s[a]);
    assert(t.take(b - a) =~= s.subrange(a, b));
    assert(t.skip(b - a) =~= s.skip(b));
}

/// Reads a line as a query: `Some` exactly when the line holds one token with
/// two labels or more, and then that token and its trailing label.
pub fn parse_line(line: &str) -> (r: Option<Query>)
    ensures
        r is Some <==> routable(line@),
        r matches Some(q) ==> q.identifier@ == tokens(line@)[0] && q.suffix@ == suffix_of(line@),
{
    let cs = chars_of(line);
    let n = cs.len();
    let ghost s = line@;
    let mut i: usize = 0;
    let mut first: Option<(usize, usize)> = None;
    let ghost mut found: Seq<Seq<char>> = seq![];
    assert(s.skip(0) =~= s);
    while i < n
        invariant
            n == cs.len(),
            cs@ == s,
            s == line@,
            i <= n,
            tokens(s) == found + tokens(s.skip(i as int)),
            found.len() <= 1,
            first is None <==> found.len() == 0,
            first matches Some(p) ==> p.0 < p.1 <= i && found[0] == s.subrange(
                p.0 as int,
                p.1 as int,
            ),
        decreases n - i,
    {
        if is_space(cs[i]) {
            proof {
                lemma_tokens_skip_space(s, i as int);
            }
            i = i + 1;
        } else {
            let start = i;
            i = i + 1;
            loop
                invariant
                    n == cs.len(),
                    cs@ == s,
                    start < i <= n,
                    forall|k: int| start <= k < i ==> !white_space(#[trigger] s[k]),
                ensures
                    start < i <= n,
                    forall|k: int| start <= k < i ==> !white_space(#[trigger] s[k]),
                    i == n || white_space(s[i as int]),
                decreases n - i,
            {
                if i == n || is_space(cs[i]) {
                    break;
                }
                i = i + 1;
            }
            proof {
                lemma_tokens_skip_run(s, start as int, i as int);
            }
            if first.is_some() {
                assert(tokens(s).len() >= 2);
                return None;
            }
            first = Some((start, i));
            proof {
                found = found.push(s.subrange(start as int, i as int));
                assert(found + tokens(s.skip(i as int)) =~= seq![s.subrange(start as int, i as int)] + tokens(s.skip(i as int)));
            }
        }
    }
    assert(s.skip(n as int) =~= Seq::<char>::empty());
    assert(tokens(s) =~= found);
    match first {
        None => None,
        Some((a, b)) => {
            let ghost t = s.subrange(a as int, b as int);
            let mut dot: Option<usize> = None;
            let mut j: usize = a;
            while j < b
                invariant
                    n == cs.len(),
                    cs@ == s,
                    a <= j <= b <= n,
                    dot matches Some(d) ==> a <= d < j && s[d as int] == '.',
                    forall|m: int| #![trigger s[m]]
                        (match dot {
                            Some(d) => d < m < j,
                            None => a <= m < j,
                        }) ==> s[m] != '.',
                decreases b - j,
            {
                if cs[j] == '.' {
                    dot = Some(j);
                }
                j = j + 1;
            }
            match dot {
                None => {
                    proof {
                        assert forall|m: int| 0 <= m < t.len() implies t[m] != '.' by {
                            assert(t[m] == s[a + m]);
                        }
                        lemma_labels_no_dot(t);
                    }
                    None
                },
                Some(d) => {
                    proof {
                        assert(t[d - a] == s[d as int]);
                        assert forall|m: int| d - a < m < t.len() implies t[m] != '.' by {
                            assert(t[m] == s[a + m]);
                        }
                        lemma_labels_last_dot(t, d - a);
                        assert(t.skip(d - a + 1) =~= s.subrange(d + 1, b as int));
                    }
                    let identifier = line.substring_char(a, b).to_owned();
                    let suffix = line.substring_char(d + 1, b).to_owned();
                    Some(Query { identifier, suffix })
                },
            }
        },
    }
}

} // verus!
