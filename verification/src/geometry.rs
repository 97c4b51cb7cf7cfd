//! Discrete part of the polygon signed-distance kernel.
//!
//! The kernel walks every edge of a closed polygon, tracking the minimum
//! squared distance to the query point and, alongside it, a crossing-number
//! parity that decides the sign of the result: the sign flips once for each
//! edge whose three ray-casting tests agree (all hold or none holds — the
//! asymmetric `>=`/`<` pair on the two y-comparisons makes a query exactly
//! on a vertex resolve deterministically to one side). The three tests
//! compare floating-point coordinates and stay with the numeric front end;
//! what each edge contributes to the sign, and that the resulting parity
//! does not depend on which vertex the traversal starts from, is decided
//! and proved here.

use vstd::prelude::*;

verus! {

/// Parity of a sequence of per-edge flip indicators: true when an odd
/// number of edges flip the sign, i.e. when the final sign is negative.
pub open spec fn parity(s: Seq<bool>) -> bool
    decreases s.len(),
{
    if s.len() == 0 {
        false
    } else {
        parity(s.drop_last()) != s.last()
    }
}

/// Whether one edge flips the sign accumulator. The three conditions are
/// the ray-casting tests of that edge: the query's y is not below the
/// edge's lower end, the query's y is strictly below the edge's upper end,
/// and the query lies on one chosen side of the edge's line. The sign
/// flips exactly when all three hold or none does.
pub fn crossing_flip(c0: bool, c1: bool, c2: bool) -> (flip: bool)
    ensures
        flip == ((c0 && c1 && c2) || (!c0 && !c1 && !c2)),
{
    (c0 && c1 && c2) || (!c0 && !c1 && !c2)
}

/// Fold a polygon's per-edge flip indicators into the final sign:
/// returns true when the signed distance comes out negative.
pub fn sign_negative(flips: &Vec<bool>) -> (neg: bool)
    ensures
        neg == parity(flips@),
{
    let mut neg = false;
    let mut i: usize = 0;
    while i < flips.len()
        invariant
            i <= flips@.len(),
            neg == parity(flips@.subrange(0, i as int)),
        decreases flips@.len() - i,
    {
        proof {
            assert(flips@.subrange(0, i + 1).drop_last() =~= flips@.subrange(0, i as int));
        }
        if flips[i] {
            neg = !neg;
        }
        i = i + 1;
    }
    proof {
        assert(flips@.subrange(0, flips@.len() as int) =~= flips@);
    }
    neg
}

/// The edge loop of an implicitly closed polygon on `n` vertices: the
/// kernel visits one edge per vertex, edge `i` running from vertex `j` to
/// vertex `i` where `j` is the cyclic predecessor of `i` — so the first
/// visited edge closes the polygon from vertex `n - 1` back to vertex 0.
/// Fewer than two vertices leave no well-formed edge loop; that input is
/// a programming error upstream and is ruled out here.
pub fn edge_loop(n: usize) -> (edges: Vec<(usize, usize)>)
    requires
        2 <= n,
    ensures
        edges@.len() == n,
        edges@[0] == ((n - 1) as usize, 0usize),
        forall|i: int| 1 <= i < n ==> edges@[i] == ((i - 1) as usize, i as usize),
{
    let mut edges: Vec<(usize, usize)> = Vec::new();
    let mut i: usize = 0;
    let mut j: usize = n - 1;
    while i < n
        invariant
            2 <= n,
            i <= n,
            j == if i == 0 { (n - 1) as int } else { i - 1 },
            edges@.len() == i,
            i > 0 ==> edges@[0] == ((n - 1) as usize, 0usize),
            forall|k: int| 1 <= k < i ==> edges@[k] == ((k - 1) as usize, k as usize),
        decreases n - i,
    {
        edges.push((j, i));
        j = i;
        i = i + 1;
    }
    edges
}

/// Parity distributes over concatenation as exclusive-or.
proof fn lemma_parity_append(a: Seq<bool>, b: Seq<bool>)
    ensures
        parity(a + b) == (parity(a) != parity(b)),
    decreases b.len(),
{
    if b.len() == 0 {
        assert(a + b =~= a);
    } else {
        lemma_parity_append(a, b.drop_last());
        assert((a + b).drop_last() =~= a + b.drop_last());
        assert((a + b).last() == b.last());
    }
}

/// Starting the edge traversal at a different vertex visits the same
/// edges: the collection of per-edge results the kernel minimizes over is
/// unchanged, only the order of consideration — and with it at most the
/// tie-break between equidistant edges — moves.
pub proof fn lemma_rotation_preserves_edges<T>(s: Seq<T>, k: int)
    requires
        0 <= k <= s.len(),
    ensures
        (s.subrange(k, s.len() as int) + s.subrange(0, k)).to_multiset() == s.to_multiset(),
{
    broadcast use vstd::multiset::group_multiset_axioms;

    let head = s.subrange(0, k);
    let tail = s.subrange(k, s.len() as int);
    vstd::seq_lib::lemma_multiset_commutative(tail, head);
    vstd::seq_lib::lemma_multiset_commutative(head, tail);
    assert(head + tail =~= s);
    assert(tail.to_multiset().add(head.to_multiset()) =~= head.to_multiset().add(
        tail.to_multiset(),
    ));
    assert((tail + head).to_multiset() =~= s.to_multiset());
}

/// Starting the edge traversal at a different vertex rotates the sequence
/// of per-edge flip indicators but leaves their parity — and with it the
/// sign of the signed distance — unchanged.
pub proof fn lemma_parity_rotation_invariant(s: Seq<bool>, k: int)
    requires
        0 <= k <= s.len(),
    ensures
        parity(s.subrange(k, s.len() as int) + s.subrange(0, k)) == parity(s),
{
    let head = s.subrange(0, k);
    let tail = s.subrange(k, s.len() as int);
    lemma_parity_append(tail, head);
    lemma_parity_append(head, tail);
    assert(head + tail =~= s);
}

} // verus!
