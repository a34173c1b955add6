//! Queries over the operations of a lowered function.
//!
//! A lookup tries to view each operation, in block order, as an op of a
//! wanted kind; these functions take the outcome of that lookup for every
//! operation (`Some(op)` where it is of the kind, `None` where it is not)
//! and count, pick the first, or collect the matches.

use vstd::prelude::*;

verus! {

/// The matches among the lookup outcomes, in order.
pub open spec fn matches_of<T>(s: Seq<Option<T>>) -> Seq<T>
    decreases s.len(),
{
    if s.len() == 0 {
        Seq::empty()
    } else {
        let head: Seq<T> = match s[0] {
            Some(t) => seq![t],
            None => Seq::empty(),
        };
        head + matches_of(s.drop_first())
    }
}

/// The first match, if there is one.
pub open spec fn first_match<T>(s: Seq<Option<T>>) -> Option<T> {
    if matches_of(s).len() > 0 {
        Some(matches_of(s)[0])
    } else {
        None
    }
}

/// Number of matches among the lookup outcomes.
pub fn count_ops<T>(candidates: &Vec<Option<T>>) -> (n: usize)
    ensures
        n == matches_of(candidates@).len(),
{
    let mut n: usize = 0;
    let mut i: usize = 0;
    proof {
        assert(candidates@.skip(0) =~= candidates@);
        lemma_matches_len_bound(candidates@);
    }
    while i < candidates.len()
        invariant
            i <= candidates@.len(),
            n + matches_of(candidates@.skip(i as int)).len() == matches_of(candidates@).len(),
            matches_of(candidates@).len() <= candidates@.len(),
        decreases candidates@.len() - i,
    {
        proof {
            assert(candidates@.skip(i as int).drop_first() =~= candidates@.skip(i + 1));
            lemma_matches_len_bound(candidates@.skip(i + 1));
        }
        if candidates[i].is_some() {
            n = n + 1;
        }
        i = i + 1;
    }
    proof {
        assert(candidates@.skip(i as int) =~= Seq::<Option<T>>::empty());
    }
    n
}

/// First match among the lookup outcomes, if any.
pub fn find_first<T>(candidates: Vec<Option<T>>) -> (r: Option<T>)
    ensures
        r == first_match(candidates@),
{
    let ghost all = candidates@;
    let mut rest = candidates;
    while rest.len() > 0
        invariant
            all == candidates@,
            matches_of(rest@) == matches_of(all),
        decreases rest@.len(),
    {
        let ghost before = rest@;
        let c = rest.remove(0);
        proof {
            assert(rest@ =~= before.drop_first());
        }
        match c {
            Some(t) => {
                assert(matches_of(before) =~= seq![t] + matches_of(rest@));
                return Some(t);
            },
            None => {
                assert(matches_of(before) =~= matches_of(rest@));
            },
        }
    }
    None
}

/// All matches among the lookup outcomes, in order.
pub fn find_all<T>(candidates: Vec<Option<T>>) -> (r: Vec<T>)
    ensures
        r@ == matches_of(candidates@),
{
    let ghost all = candidates@;
    let mut rest = candidates;
    let mut out: Vec<T> = Vec::new();
    while rest.len() > 0
        invariant
            out@ + matches_of(rest@) == matches_of(all),
        decreases rest@.len(),
    {
        let ghost before = rest@;
        let ghost before_out = out@;
        let c = rest.remove(0);
        proof {
            assert(rest@ =~= before.drop_first());
        }
        match c {
            Some(t) => {
                out.push(t);
                assert(before_out + matches_of(before) =~= out@ + matches_of(rest@));
            },
            None => {
                assert(before_out + matches_of(before) =~= out@ + matches_of(rest@));
            },
        }
    }
    assert(out@ + matches_of(rest@) =~= out@);
    out
}

proof fn lemma_matches_len_bound<T>(s: Seq<Option<T>>)
    ensures
        matches_of(s).len() <= s.len(),
    decreases s.len(),
{
    if s.len() > 0 {
        lemma_matches_len_bound(s.drop_first());
    }
}

/// The matches of outcomes gathered block after block are the matches of
/// each block, one after the other: a query across blocks keeps block order.
pub proof fn law_matches_of_concat<T>(a: Seq<Option<T>>, b: Seq<Option<T>>)
    ensures
        matches_of(a + b) == matches_of(a) + matches_of(b),
    decreases a.len(),
{
    if a.len() == 0 {
        assert(a + b =~= b);
        assert(matches_of(a) + matches_of(b) =~= matches_of(b));
    } else {
        law_matches_of_concat(a.drop_first(), b);
        assert((a + b).drop_first() =~= a.drop_first() + b);
        assert(matches_of(a + b) =~= matches_of(a) + matches_of(b));
    }
}

/// The first match is the op at the first position whose lookup succeeded;
/// there is none exactly when every lookup failed.
pub proof fn law_first_match_is_first<T>(s: Seq<Option<T>>)
    ensures
        first_match(s) is None <==> forall|j: int| 0 <= j < s.len() ==> #[trigger] s[j] is None,
        first_match(s) is Some ==> exists|i: int|
            0 <= i < s.len() && s[i] == first_match(s) && forall|j: int|
                0 <= j < i ==> #[trigger] s[j] is None,
    decreases s.len(),
{
    if s.len() > 0 {
        let t = s.drop_first();
        law_first_match_is_first(t);
        assert(forall|j: int| 0 < j < s.len() ==> s[j] == #[trigger] t[j - 1]);
        match s[0] {
            Some(x) => {
                assert(matches_of(s) =~= seq![x] + matches_of(t));
                assert((seq![x] + matches_of(t))[0] == x);
                assert(first_match(s) == Some(x));
            },
            None => {
                assert(matches_of(s) =~= matches_of(t));
                assert(first_match(s) == first_match(t));
                if first_match(t) is Some {
                    let i = choose|i: int|
                        0 <= i < t.len() && t[i] == first_match(t) && forall|j: int|
                            0 <= j < i ==> #[trigger] t[j] is None;
                    assert(s[i + 1] == t[i]);
                    assert forall|j: int| 0 <= j < i + 1 implies #[trigger] s[j] is None by {
                        if j > 0 {
                            assert(s[j] == t[j - 1]);
                        }
                    }
                } else {
                    assert forall|j: int| 0 <= j < s.len() implies #[trigger] s[j] is None by {
                        if j > 0 {
                            assert(s[j] == t[j - 1]);
                        }
                    }
                }
            },
        }
    }
}

} // verus!
