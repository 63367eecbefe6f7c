//! Back-to-front ordering of quads for transparency blending. Quads are
//! drawn in decreasing distance from the camera; ties keep their insertion
//! order (a stable sort), so an unchanged scene never flickers.
//!
//! A distance key is the squared camera-to-centroid distance as an IEEE-754
//! bit pattern: squared distances are non-negative floats, whose bit
//! patterns order exactly as the numbers do, so comparing keys as integers
//! compares distances.

use vstd::prelude::*;

verus! {

/// Some position of `order` holds the quad index `v`.
pub open spec fn order_contains(order: Seq<usize>, v: int) -> bool {
    exists|a: int| 0 <= a < order.len() && (#[trigger] order[a]) == v
}

/// Quad `x` draws before quad `y`: strictly farther from the camera, or at
/// the same key and inserted earlier.
pub open spec fn key_order(keys: Seq<u32>, x: int, y: int) -> bool {
    keys[x] > keys[y] || (keys[x] == keys[y] && x < y)
}

/// `order` is the back-to-front draw order for `keys`: a permutation of the
/// quad indices, arranged by decreasing key with ties in insertion order.
pub open spec fn is_sorted_quad_order(keys: Seq<u32>, order: Seq<usize>) -> bool {
    &&& order.len() == keys.len()
    &&& forall|a: int| 0 <= a < order.len() ==> (#[trigger] order[a]) < keys.len()
    &&& forall|a: int, b: int|
        0 <= a < b < order.len() ==> key_order(keys, #[trigger] order[a] as int, #[trigger] order[b] as int)
    &&& forall|v: int| 0 <= v < keys.len() ==> #[trigger] order_contains(order, v)
}

/// The back-to-front draw order for `keys`; by uniqueness it is the one
/// order that `is_sorted_quad_order` admits.
pub open spec fn spec_sorted_quad_order(keys: Seq<u32>) -> Seq<usize> {
    choose|o: Seq<usize>| is_sorted_quad_order(keys, o)
}

/// The back-to-front draw order of the quads with the given distance keys:
/// a stable sort by decreasing key.
pub fn sorted_quad_order(keys: &Vec<u32>) -> (r: Vec<usize>)
    ensures
        is_sorted_quad_order(keys@, r@),
        r@ == spec_sorted_quad_order(keys@),
{
    let n = keys.len();
    let mut r: Vec<usize> = Vec::new();
    let mut idx: usize = 0;
    while idx < n
        invariant
            n == keys@.len(),
            idx <= n,
            r@.len() == idx,
            forall|a: int| 0 <= a < r@.len() ==> (#[trigger] r@[a]) < idx,
            forall|a: int, b: int|
                0 <= a < b < r@.len() ==> key_order(
                    keys@,
                    #[trigger] r@[a] as int,
                    #[trigger] r@[b] as int,
                ),
            forall|v: int| 0 <= v < idx ==> #[trigger] order_contains(r@, v),
        decreases n - idx,
    {
        let key = keys[idx];
        let mut p: usize = 0;
        while p < r.len() && keys[r[p]] >= key
            invariant
                n == keys@.len(),
                idx < n,
                key == keys@[idx as int],
                r@.len() == idx,
                forall|a: int| 0 <= a < r@.len() ==> (#[trigger] r@[a]) < idx,
                p <= r@.len(),
                forall|q: int| 0 <= q < p ==> keys@[#[trigger] r@[q] as int] >= key,
            decreases r@.len() - p,
        {
            p = p + 1;
        }
        let ghost r_old = r@;
        let ghost pp = p as int;
        r.insert(p, idx);
        proof {
            assert(r@ =~= r_old.subrange(0, pp) + seq![idx] + r_old.subrange(
                0,
                r_old.len() as int,
            ).subrange(pp, r_old.len() as int));
            assert(r@ =~= r_old.subrange(0, pp) + seq![idx] + r_old.subrange(
                pp,
                r_old.len() as int,
            ));
            // Every position of the new sequence holds either an old entry
            // or the inserted index.
            assert(forall|a: int| 0 <= a < pp ==> r@[a] == r_old[a]);
            assert(r@[pp] == idx);
            assert(forall|a: int| pp < a < r@.len() ==> r@[a] == r_old[a - 1]);
            // Pairwise order is preserved around the insertion point: the
            // entries before it hold keys at least as large as the new one
            // and are older, and the entry right after it (if any) has a
            // strictly smaller key, as does everything beyond it.
            assert forall|a: int, b: int| 0 <= a < b < r@.len() implies key_order(
                keys@,
                r@[a] as int,
                r@[b] as int,
            ) by {
                if a < pp && b < pp {
                } else if a < pp && b == pp {
                    assert(keys@[r_old[a] as int] >= key);
                    assert(r_old[a] < idx);
                } else if a < pp && b > pp {
                } else if a == pp {
                    let y = r@[b] as int;
                    assert(r@[b] == r_old[b - 1]);
                    if b - 1 == pp {
                        assert(keys@[r_old[pp] as int] < key);
                    } else {
                        assert(key_order(keys@, r_old[pp] as int, r_old[b - 1] as int));
                        assert(keys@[r_old[pp] as int] < key);
                    }
                } else {
                }
            }
            // Everything below the new index count is present: the old
            // entries moved at most one slot, and the new index sits at the
            // insertion point.
            assert forall|v: int| 0 <= v < idx + 1 implies #[trigger] order_contains(r@, v) by {
                if v == idx {
                    assert(r@[pp] == idx);
                } else {
                    assert(order_contains(r_old, v));
                    let a0 = choose|a0: int| 0 <= a0 < r_old.len() && (#[trigger] r_old[a0]) == v;
                    if a0 < pp {
                        assert(r@[a0] == r_old[a0]);
                    } else {
                        assert(r@[a0 + 1] == r_old[a0]);
                    }
                }
            }
        }
        idx = idx + 1;
    }
    proof {
        assert(is_sorted_quad_order(keys@, spec_sorted_quad_order(keys@))) by {
            assert(is_sorted_quad_order(keys@, r@));
        }
        lemma_sorted_quad_order_unique(keys@, r@, spec_sorted_quad_order(keys@));
    }
    r
}

/// The draw order for given keys is unique: two orders that both satisfy
/// the sort contract are equal. Re-sorting with an unchanged camera and
/// unchanged geometry reproduces the keys, and therefore the very same
/// order: the re-sort is a no-op.
pub proof fn lemma_sorted_quad_order_unique(keys: Seq<u32>, o1: Seq<usize>, o2: Seq<usize>)
    requires
        is_sorted_quad_order(keys, o1),
        is_sorted_quad_order(keys, o2),
    ensures
        o1 =~= o2,
{
    lemma_orders_agree_upto(keys, o1, o2, o1.len() as int);
}

proof fn lemma_orders_agree_upto(keys: Seq<u32>, o1: Seq<usize>, o2: Seq<usize>, i: int)
    requires
        is_sorted_quad_order(keys, o1),
        is_sorted_quad_order(keys, o2),
        0 <= i <= o1.len(),
    ensures
        forall|j: int| 0 <= j < i ==> o1[j] == o2[j],
    decreases i,
{
    if i > 0 {
        lemma_orders_agree_upto(keys, o1, o2, i - 1);
        lemma_orders_agree_at(keys, o1, o2, i - 1);
    }
}

proof fn lemma_orders_agree_at(keys: Seq<u32>, o1: Seq<usize>, o2: Seq<usize>, i: int)
    requires
        is_sorted_quad_order(keys, o1),
        is_sorted_quad_order(keys, o2),
        0 <= i < o1.len(),
        forall|j: int| 0 <= j < i ==> o1[j] == o2[j],
    ensures
        o1[i] == o2[i],
{
    let x = o1[i] as int;
    let y = o2[i] as int;
    if x != y {
        // x appears in o2 somewhere; before position i the two orders
        // agree, and o1 cannot repeat x, so it appears strictly later.
        assert(order_contains(o2, x));
        let b = choose|b: int| 0 <= b < o2.len() && (#[trigger] o2[b]) == x;
        if b < i {
            assert(o1[b] == o2[b]);
            assert(key_order(keys, o1[b] as int, o1[i] as int));
            assert(false);
        }
        if b == i {
            assert(false);
        }
        assert(key_order(keys, y, x));
        // And symmetrically y appears in o1 strictly after i.
        assert(order_contains(o1, y));
        let c = choose|c: int| 0 <= c < o1.len() && (#[trigger] o1[c]) == y;
        if c < i {
            assert(o2[c] == o1[c]);
            assert(key_order(keys, o2[c] as int, o2[i] as int));
            assert(false);
        }
        if c == i {
            assert(false);
        }
        assert(key_order(keys, x, y));
        assert(false);
    }
}

/// Keys already in decreasing order sort to the identity: once the quads
/// stand back to front, sorting moves nothing.
pub proof fn lemma_sorted_quad_order_identity(keys: Seq<u32>, order: Seq<usize>)
    requires
        is_sorted_quad_order(keys, order),
        forall|a: int, b: int| 0 <= a < b < keys.len() ==> keys[a] >= keys[b],
    ensures
        forall|a: int| 0 <= a < order.len() ==> (#[trigger] order[a]) == a,
{
    lemma_identity_upto(keys, order, order.len() as int);
}

proof fn lemma_identity_upto(keys: Seq<u32>, order: Seq<usize>, i: int)
    requires
        is_sorted_quad_order(keys, order),
        forall|a: int, b: int| 0 <= a < b < keys.len() ==> keys[a] >= keys[b],
        0 <= i <= order.len(),
    ensures
        forall|j: int| 0 <= j < i ==> (#[trigger] order[j]) == j,
    decreases i,
{
    if i > 0 {
        lemma_identity_upto(keys, order, i - 1);
        lemma_identity_at(keys, order, i - 1);
    }
}

proof fn lemma_identity_at(keys: Seq<u32>, order: Seq<usize>, i: int)
    requires
        is_sorted_quad_order(keys, order),
        forall|a: int, b: int| 0 <= a < b < keys.len() ==> keys[a] >= keys[b],
        0 <= i < order.len(),
        forall|j: int| 0 <= j < i ==> (#[trigger] order[j]) == j,
    ensures
        order[i] == i,
{
    let x = order[i] as int;
    if x < i {
        // The value x already sits at position x, and a strict draw order
        // never relates a quad to itself.
        assert(order[x] == x);
        assert(key_order(keys, order[x] as int, order[i] as int));
        assert(false);
    }
    if x > i {
        // The value i must sit at some later position, but a farther-or-
        // older quad cannot draw after a nearer-and-newer one.
        assert(order_contains(order, i));
        let a = choose|a: int| 0 <= a < order.len() && (#[trigger] order[a]) == i;
        if a < i {
            assert(order[a] == a);
            assert(false);
        }
        if a == i {
            assert(false);
        }
        assert(key_order(keys, x, i));
        assert(keys[i] >= keys[x]);
        assert(false);
    }
}

} // verus!
