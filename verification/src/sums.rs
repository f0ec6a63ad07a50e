//! Summation of a per-element term over a sequence, the spec-level shape
//! of every accumulation loop in the engine.

use vstd::prelude::*;

verus! {

/// Sum of `f` over all elements of `s`.
pub open spec fn sum_terms<A>(s: Seq<A>, f: spec_fn(A) -> int) -> int
    decreases s.len(),
{
    if s.len() == 0 {
        0
    } else {
        sum_terms(s.drop_last(), f) + f(s.last())
    }
}

/// Extending the summed prefix by one element adds that element's term.
pub proof fn lemma_sum_terms_step<A>(s: Seq<A>, f: spec_fn(A) -> int, n: int)
    requires
        0 <= n < s.len(),
    ensures
        sum_terms(s.take(n + 1), f) == sum_terms(s.take(n), f) + f(s[n]),
{
    assert(s.take(n + 1).drop_last() =~= s.take(n));
    assert(s.take(n + 1).last() == s[n]);
}

/// The sum over the whole-length prefix is the sum over the sequence.
pub proof fn lemma_sum_terms_take_all<A>(s: Seq<A>, f: spec_fn(A) -> int)
    ensures
        sum_terms(s.take(s.len() as int), f) == sum_terms(s, f),
{
    assert(s.take(s.len() as int) =~= s);
}

/// A uniform bound on the terms bounds the sum by length times bound.
pub proof fn lemma_sum_terms_bound<A>(s: Seq<A>, f: spec_fn(A) -> int, b: int)
    requires
        0 <= b,
        forall|i: int| 0 <= i < s.len() ==> -b <= #[trigger] f(s[i]) <= b,
    ensures
        -(s.len() * b) <= sum_terms(s, f) <= s.len() * b,
    decreases s.len(),
{
    if s.len() == 0 {
    } else {
        let d = s.drop_last();
        assert forall|i: int| 0 <= i < d.len() implies -b <= #[trigger] f(d[i]) <= b by {
            assert(d[i] == s[i]);
        }
        lemma_sum_terms_bound(d, f, b);
        assert(f(s.last()) == f(s[s.len() - 1]));
        assert((s.len() - 1) * b + b == s.len() * b) by (nonlinear_arith);
    }
}

/// Sequences whose elements yield the same terms have the same sum.
pub proof fn lemma_sum_terms_congruent<A>(s1: Seq<A>, s2: Seq<A>, f: spec_fn(A) -> int)
    requires
        s1.len() == s2.len(),
        forall|i: int| 0 <= i < s1.len() ==> #[trigger] f(s1[i]) == f(s2[i]),
    ensures
        sum_terms(s1, f) == sum_terms(s2, f),
    decreases s1.len(),
{
    if s1.len() > 0 {
        let d1 = s1.drop_last();
        let d2 = s2.drop_last();
        assert forall|i: int| 0 <= i < d1.len() implies #[trigger] f(d1[i]) == f(d2[i]) by {
            assert(d1[i] == s1[i] && d2[i] == s2[i]);
        }
        lemma_sum_terms_congruent(d1, d2, f);
        assert(f(s1.last()) == f(s1[s1.len() - 1]));
        assert(f(s2.last()) == f(s2[s2.len() - 1]));
    }
}

} // verus!
