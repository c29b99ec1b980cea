//! Finding things in sequences.

use vstd::prelude::*;

verus! {

/// The position of the first element that `p` holds of.
#[verifier::opaque]
pub open spec fn first<A>(s: Seq<A>, p: spec_fn(A) -> bool) -> Option<int>
    decreases s.len(),
{
    if s.len() == 0 {
        None
    } else {
        match first(s.drop_last(), p) {
            Some(i) => Some(i),
            None => if p(s.last()) {
                Some(s.len() - 1)
            } else {
                None
            },
        }
    }
}

/// What [`first`] gives is the first such position; where it gives none, there
/// is none.
pub proof fn lemma_first<A>(s: Seq<A>, p: spec_fn(A) -> bool)
    ensures
        match first(s, p) {
            Some(i) => 0 <= i < s.len() && p(s[i]) && forall|j: int| 0 <= j < i ==> !p(#[trigger] s[j]),
            None => forall|j: int| 0 <= j < s.len() ==> !p(#[trigger] s[j]),
        },
    decreases s.len(),
{
    reveal_with_fuel(first, 2);
    if s.len() > 0 {
        lemma_first(s.drop_last(), p);
        assert forall|j: int| 0 <= j < s.len() - 1 implies #[trigger] s[j] == s.drop_last()[j] by {}
    }
}

/// A position that satisfies `p` and has none before it is the first one.
pub proof fn lemma_first_is<A>(s: Seq<A>, p: spec_fn(A) -> bool, i: int)
    requires
        0 <= i < s.len(),
        p(s[i]),
        forall|j: int| 0 <= j < i ==> !p(#[trigger] s[j]),
    ensures
        first(s, p) == Some(i),
{
    lemma_first(s, p);
}

/// Where no element satisfies `p`, there is no first one.
pub proof fn lemma_first_none<A>(s: Seq<A>, p: spec_fn(A) -> bool)
    requires
        forall|j: int| 0 <= j < s.len() ==> !p(#[trigger] s[j]),
    ensures
        first(s, p) is None,
{
    lemma_first(s, p);
}

/// The elements other than `x`, in order.
pub open spec fn without(s: Seq<usize>, x: usize) -> Seq<usize>
    decreases s.len(),
{
    if s.len() == 0 {
        s
    } else if s.last() == x {
        without(s.drop_last(), x)
    } else {
        without(s.drop_last(), x).push(s.last())
    }
}

/// `x` is not among the elements other than `x`; everything else stays.
pub proof fn lemma_without(s: Seq<usize>, x: usize)
    ensures
        !without(s, x).contains(x),
        forall|y: usize| y != x ==> (without(s, x).contains(y) <==> s.contains(y)),
        without(s, x).len() <= s.len(),
    decreases s.len(),
{
    if s.len() > 0 {
        let t = s.drop_last();
        lemma_without(t, x);
        let w = without(t, x);
        assert(s =~= t.push(s.last()));
        assert forall|y: usize| y != x implies (without(s, x).contains(y) <==> s.contains(y)) by {
            if s.contains(y) {
                let i = choose|i: int| 0 <= i < s.len() && s[i] == y;
                if i < t.len() {
                    assert(t[i] == y);
                    assert(t.contains(y));
                    assert(w.contains(y));
                    let k = choose|k: int| 0 <= k < w.len() && w[k] == y;
                    if s.last() != x {
                        assert(w.push(s.last())[k] == y);
                    }
                } else {
                    assert(w.push(s.last())[w.len() as int] == y);
                }
            }
            if without(s, x).contains(y) {
                let k = choose|k: int| 0 <= k < without(s, x).len() && without(s, x)[k] == y;
                if s.last() == x {
                    assert(w[k] == y);
                } else if k < w.len() {
                    assert(w[k] == y);
                } else {
                    assert(s[s.len() - 1] == y);
                }
                if w.contains(y) {
                    assert(t.contains(y));
                    let i = choose|i: int| 0 <= i < t.len() && t[i] == y;
                    assert(s[i] == y);
                }
            }
        }
        if s.last() != x && without(s, x).contains(x) {
            let k = choose|k: int| 0 <= k < without(s, x).len() && without(s, x)[k] == x;
            assert(w[k] == x);
        }
    }
}

/// Leaving an element out of a sequence without repetitions brings none in.
pub proof fn lemma_without_keeps_distinct(s: Seq<usize>, x: usize)
    requires
        s.no_duplicates(),
    ensures
        without(s, x).no_duplicates(),
    decreases s.len(),
{
    if s.len() > 0 {
        let t = s.drop_last();
        assert(t.no_duplicates()) by {
            assert forall|i: int, j: int| 0 <= i < t.len() && 0 <= j < t.len() && i != j implies t[i]
                != t[j] by {
                assert(s[i] != s[j]);
            }
        }
        lemma_without_keeps_distinct(t, x);
        if s.last() != x {
            lemma_without(t, x);
            let w = without(t, x);
            assert(!t.contains(s.last())) by {
                if t.contains(s.last()) {
                    let i = choose|i: int| 0 <= i < t.len() && t[i] == s.last();
                    assert(s[i] != s[s.len() - 1]);
                }
            }
            assert(!w.contains(s.last()));
        }
    }
}

/// Copies a list of ids without `x`.
pub fn retain_other(v: &Vec<usize>, x: usize) -> (r: Vec<usize>)
    ensures
        r@ == without(v@, x),
{
    let mut r: Vec<usize> = Vec::new();
    let mut i: usize = 0;
    assert(r@ =~= without(v@.take(0), x));
    while i < v.len()
        invariant
            i <= v@.len(),
            r@ == without(v@.take(i as int), x),
        decreases v@.len() - i,
    {
        assert(v@.take(i + 1).drop_last() =~= v@.take(i as int));
        if v[i] != x {
            r.push(v[i]);
        }
        i = i + 1;
    }
    assert(v@.take(i as int) =~= v@);
    r
}

/// Copies a list of ids.
pub fn copy_ids(v: &Vec<usize>) -> (r: Vec<usize>)
    ensures
        r@ == v@,
{
    let mut r: Vec<usize> = Vec::new();
    let mut i: usize = 0;
    while i < v.len()
        invariant
            i <= v@.len(),
            r@ == v@.take(i as int),
        decreases v@.len() - i,
    {
        r.push(v[i]);
        i = i + 1;
        assert(r@ =~= v@.take(i as int));
    }
    assert(r@ =~= v@);
    r
}

/// What is left out of a sequence leaves the rest in its order.
pub proof fn law_leaving_out_keeps_the_order(before: Seq<usize>, x: usize, after: Seq<usize>)
    requires
        !before.contains(x),
        !after.contains(x),
    ensures
        without(before + seq![x] + after, x) == before + after,
    decreases after.len(),
{
    let s = before + seq![x] + after;
    if after.len() > 0 {
        let rest = after.drop_last();
        assert forall|i: int| 0 <= i < rest.len() implies rest[i] != x by {
            assert(after.contains(after[i]));
        }
        law_leaving_out_keeps_the_order(before, x, rest);
        assert(s.drop_last() =~= before + seq![x] + rest);
        assert(s.last() == after.last());
        assert(after.contains(after.last()));
        assert(without(s, x) == without(s.drop_last(), x).push(after.last()));
        assert((before + rest).push(after.last()) =~= before + after);
    } else {
        lemma_nothing_left_out(before, x);
        assert(s.drop_last() =~= before);
        assert(s.last() == x);
        assert(without(s, x) == without(before, x));
        assert(before + after =~= before);
    }
}

proof fn lemma_nothing_left_out(s: Seq<usize>, x: usize)
    requires
        !s.contains(x),
    ensures
        without(s, x) == s,
    decreases s.len(),
{
    if s.len() > 0 {
        let rest = s.drop_last();
        assert forall|i: int| 0 <= i < rest.len() implies rest[i] != x by {
            assert(s.contains(s[i]));
        }
        lemma_nothing_left_out(rest, x);
        assert(s.contains(s.last()));
        assert(rest.push(s.last()) =~= s);
    }
}

} // verus!
