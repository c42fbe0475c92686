//! Facts about filtering a sequence that the mailbox proofs share.

use vstd::prelude::*;

verus! {

/// Filtering by `a` and then by `b` keeps what satisfies both.
pub proof fn lemma_filter_twice<A>(
    s: Seq<A>,
    a: spec_fn(A) -> bool,
    b: spec_fn(A) -> bool,
    both: spec_fn(A) -> bool,
)
    requires
        forall|x: A| #[trigger] both(x) == (a(x) && b(x)),
    ensures
        s.filter(a).filter(b) == s.filter(both),
    decreases s.len(),
{
    reveal(Seq::filter);
    if s.len() > 0 {
        let init = s.drop_last();
        let x = s.last();
        lemma_filter_twice(init, a, b, both);
        assert(s =~= init.push(x));
        init.lemma_filter_push(x, a);
        init.lemma_filter_push(x, both);
        if a(x) {
            init.filter(a).lemma_filter_push(x, b);
        }
    }
}

/// A predicate that holds of every element of `s` filters nothing out.
pub proof fn lemma_filter_keeps_all<A>(s: Seq<A>, a: spec_fn(A) -> bool)
    requires
        forall|i: int| 0 <= i < s.len() ==> a(#[trigger] s[i]),
    ensures
        s.filter(a) == s,
    decreases s.len(),
{
    reveal(Seq::filter);
    if s.len() > 0 {
        let init = s.drop_last();
        assert forall|i: int| 0 <= i < init.len() implies a(#[trigger] init[i]) by {
            assert(init[i] == s[i]);
        }
        lemma_filter_keeps_all(init, a);
        assert(init.push(s.last()) =~= s);
    }
}

/// Filtering in either order gives the same sequence.
pub proof fn lemma_filter_commutes<A>(s: Seq<A>, a: spec_fn(A) -> bool, b: spec_fn(A) -> bool)
    ensures
        s.filter(a).filter(b) == s.filter(b).filter(a),
{
    let both = |x: A| a(x) && b(x);
    lemma_filter_twice(s, a, b, both);
    lemma_filter_twice(s, b, a, both);
}

/// Every element of a filtered sequence stood in the unfiltered sequence, and
/// the filtered sequence keeps its order.
pub proof fn lemma_filter_preserves_order<A>(s: Seq<A>, a: spec_fn(A) -> bool, less: spec_fn(A, A) -> bool)
    requires
        forall|i: int, j: int| 0 <= i < j < s.len() ==> less(#[trigger] s[i], #[trigger] s[j]),
    ensures
        forall|i: int, j: int|
            0 <= i < j < s.filter(a).len() ==> less(
                #[trigger] s.filter(a)[i],
                #[trigger] s.filter(a)[j],
            ),
        forall|i: int| 0 <= i < s.filter(a).len() ==> s.contains(#[trigger] s.filter(a)[i]),
    decreases s.len(),
{
    reveal(Seq::filter);
    if s.len() > 0 {
        let init = s.drop_last();
        let x = s.last();
        assert forall|i: int, j: int| 0 <= i < j < init.len() implies less(
            #[trigger] init[i],
            #[trigger] init[j],
        ) by {
            assert(init[i] == s[i] && init[j] == s[j]);
        }
        lemma_filter_preserves_order(init, a, less);
        let f = s.filter(a);
        let g = init.filter(a);
        assert forall|i: int| 0 <= i < f.len() implies s.contains(#[trigger] f[i]) by {
            if i < g.len() {
                assert(f[i] == g[i]);
                assert(init.contains(g[i]));
                let k = choose|k: int| 0 <= k < init.len() && init[k] == g[i];
                assert(s[k] == g[i]);
            } else {
                assert(f[i] == x);
                assert(s[s.len() - 1] == x);
            }
        }
        assert forall|i: int, j: int| 0 <= i < j < f.len() implies less(
            #[trigger] f[i],
            #[trigger] f[j],
        ) by {
            if j < g.len() {
                assert(f[i] == g[i] && f[j] == g[j]);
            } else {
                assert(f[j] == x);
                assert(f[i] == g[i]);
                assert(init.contains(g[i]));
                let k = choose|k: int| 0 <= k < init.len() && init[k] == g[i];
                assert(s[k] == g[i]);
                assert(less(s[k], s[s.len() - 1]));
            }
        }
    }
}

} // verus!
