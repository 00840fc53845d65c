//! Small reusable facts about sequences of coordinates: membership under
//! push, remove and filter, and distinctness preservation, used by the
//! world store and the falling-block queue.
use vstd::prelude::*;

use crate::coords::Vec3i;

verus! {

/// A sequence of coordinates with no repeated element.
pub open spec fn distinct_seq(s: Seq<Vec3i>) -> bool {
    forall|i: int, j: int| 0 <= i < j < s.len() ==> s[i] != s[j]
}

/// Return `true` when the vector holds the given coordinate.
pub fn coords_contain(v: &Vec<Vec3i>, c: Vec3i) -> (r: bool)
    ensures
        r == v@.contains(c),
{
    let mut i: usize = 0;
    while i < v.len()
        invariant
            i <= v@.len(),
            forall|j: int| 0 <= j < i ==> v@[j] != c,
        decreases v@.len() - i,
    {
        if v[i].x == c.x && v[i].y == c.y && v[i].z == c.z {
            assert(v@[i as int] == c);
            return true;
        }
        i = i + 1;
    }
    false
}

/// Membership after a push: exactly the old members plus the new element.
pub proof fn lemma_push_contains(s: Seq<Vec3i>, x: Vec3i)
    ensures
        forall|y: Vec3i| s.push(x).contains(y) == (s.contains(y) || y == x),
{
    assert forall|y: Vec3i| s.push(x).contains(y) implies (s.contains(y) || y == x) by {
        let i = choose|i: int| 0 <= i < s.push(x).len() && s.push(x)[i] == y;
        if i < s.len() {
            assert(s[i] == y);
        }
    }
    assert forall|y: Vec3i| (s.contains(y) || y == x) implies s.push(x).contains(y) by {
        if s.contains(y) {
            let i = choose|i: int| 0 <= i < s.len() && s[i] == y;
            assert(s.push(x)[i] == y);
        } else {
            assert(s.push(x)[s.len() as int] == y);
        }
    }
}

/// Membership of a concatenation: a member of either part.
pub proof fn lemma_add_contains(a: Seq<Vec3i>, b: Seq<Vec3i>)
    ensures
        forall|y: Vec3i| (a + b).contains(y) == (a.contains(y) || b.contains(y)),
{
    assert forall|y: Vec3i| (a + b).contains(y) implies (a.contains(y) || b.contains(y)) by {
        let i = choose|i: int| 0 <= i < (a + b).len() && (a + b)[i] == y;
        if i < a.len() {
            assert(a[i] == y);
        } else {
            assert(b[i - a.len()] == y);
        }
    }
    assert forall|y: Vec3i| (a.contains(y) || b.contains(y)) implies (a + b).contains(y) by {
        if a.contains(y) {
            let i = choose|i: int| 0 <= i < a.len() && a[i] == y;
            assert((a + b)[i] == y);
        } else {
            let i = choose|i: int| 0 <= i < b.len() && b[i] == y;
            assert((a + b)[a.len() + i] == y);
        }
    }
}

/// Distinctness of a push of a fresh element.
pub proof fn lemma_distinct_push(s: Seq<Vec3i>, x: Vec3i)
    requires
        distinct_seq(s),
        !s.contains(x),
    ensures
        distinct_seq(s.push(x)),
{
    assert forall|p: int, q: int| 0 <= p < q < s.push(x).len() implies s.push(x)[p] != s.push(
        x,
    )[q] by {
        if q < s.len() {
            assert(s.push(x)[p] == s[p] && s.push(x)[q] == s[q]);
        } else {
            assert(s.push(x)[q] == x);
            assert(s.push(x)[p] == s[p]);
            assert(s.contains(s[p]));
        }
    }
}

/// Membership and distinctness after removing one position from a
/// repeat-free sequence: exactly the old members except the removed one.
pub proof fn lemma_distinct_remove(s: Seq<Vec3i>, i: int)
    requires
        distinct_seq(s),
        0 <= i < s.len(),
    ensures
        distinct_seq(s.remove(i)),
        forall|x: Vec3i| s.remove(i).contains(x) == (s.contains(x) && x != s[i]),
{
    s.remove_ensures(i);
    assert forall|x: Vec3i| s.remove(i).contains(x) implies (s.contains(x) && x != s[i]) by {
        let j = choose|j: int| 0 <= j < s.remove(i).len() && s.remove(i)[j] == x;
        if j < i {
            assert(s[j] == x);
        } else {
            assert(s[j + 1] == x);
        }
    }
    assert forall|x: Vec3i| (s.contains(x) && x != s[i]) implies s.remove(i).contains(x) by {
        let j = choose|j: int| 0 <= j < s.len() && s[j] == x;
        if j < i {
            assert(s.remove(i)[j] == x);
        } else {
            assert(s.remove(i)[j - 1] == x);
        }
    }
    assert forall|p: int, q: int| 0 <= p < q < s.remove(i).len() implies s.remove(i)[p] != s.remove(
        i,
    )[q] by {
        let sp: int = if p < i {
            p
        } else {
            p + 1
        };
        let sq: int = if q < i {
            q
        } else {
            q + 1
        };
        assert(s.remove(i)[p] == s[sp]);
        assert(s.remove(i)[q] == s[sq]);
    }
}

/// Filtering a push folds to a push (or nothing) on the filtered prefix.
pub proof fn lemma_filter_push(s: Seq<Vec3i>, x: Vec3i, pred: spec_fn(Vec3i) -> bool)
    ensures
        s.push(x).filter(pred) == (if pred(x) {
            s.filter(pred).push(x)
        } else {
            s.filter(pred)
        }),
{
    reveal(Seq::filter);
    assert(s.push(x).drop_last() =~= s);
    assert(s.push(x).last() == x);
}

/// Membership of a filtered sequence, and distinctness preservation:
/// exactly the old members that satisfy the predicate.
pub proof fn lemma_filter_props(s: Seq<Vec3i>, pred: spec_fn(Vec3i) -> bool)
    ensures
        distinct_seq(s) ==> distinct_seq(s.filter(pred)),
        forall|x: Vec3i| s.filter(pred).contains(x) == (s.contains(x) && pred(x)),
    decreases s.len(),
{
    reveal(Seq::filter);
    if s.len() == 0 {
        assert(s.filter(pred) == s);
    } else {
        let s0 = s.drop_last();
        let x = s.last();
        lemma_filter_props(s0, pred);
        assert(s0.push(x) =~= s);
        lemma_filter_push(s0, x, pred);
        lemma_push_contains(s0, x);
        if pred(x) {
            lemma_push_contains(s0.filter(pred), x);
        }
        assert forall|y: Vec3i| s.filter(pred).contains(y) == (s.contains(y) && pred(y)) by {
            assert(s.contains(y) == (s0.contains(y) || y == x));
        }
        if distinct_seq(s) {
            assert(distinct_seq(s0)) by {
                assert forall|i: int, j: int| 0 <= i < j < s0.len() implies s0[i] != s0[j] by {
                    assert(s[i] == s0[i] && s[j] == s0[j]);
                }
            }
            if pred(x) {
                assert(!s0.contains(x)) by {
                    if s0.contains(x) {
                        let i = choose|i: int| 0 <= i < s0.len() && s0[i] == x;
                        assert(s[i] == s[s.len() - 1]);
                    }
                }
                let f0 = s0.filter(pred);
                assert(!f0.contains(x));
                assert forall|p: int, q: int| 0 <= p < q < f0.push(x).len() implies f0.push(x)[p]
                    != f0.push(x)[q] by {
                    if q < f0.len() {
                        assert(f0.push(x)[p] == f0[p] && f0.push(x)[q] == f0[q]);
                    } else {
                        assert(f0.push(x)[q] == x);
                        assert(f0.push(x)[p] == f0[p]);
                        assert(f0.contains(f0[p]));
                    }
                }
            }
        }
    }
}

} // verus!
