//! Discrete part of the energy assembler.
//!
//! For each particle the geometry kernel yields a signed distance and its
//! gradient; the assembler is a one-sided barrier over those results: a
//! particle strictly outside its containment region (positive signed
//! distance) contributes the distance to the total energy and its kernel
//! gradient to its two coordinate slots, and a particle inside or on the
//! boundary contributes nothing. Comparing the distance to zero is
//! floating-point and stays with the numeric front end; which terms enter
//! the sum, and which slots of the caller's gradient buffer receive what,
//! is decided and verified here.

use vstd::prelude::*;

verus! {

/// The penalty terms selected by the barrier: the values at the flagged
/// positions, in position order.
pub open spec fn selected<S>(flags: Seq<bool>, vals: Seq<S>) -> Seq<S>
    recommends
        flags.len() == vals.len(),
    decreases flags.len(),
{
    if flags.len() == 0 {
        Seq::empty()
    } else {
        let rest = selected(flags.drop_last(), vals.drop_last());
        if flags.last() {
            rest.push(vals.last())
        } else {
            rest
        }
    }
}

/// Collect each outside particle's signed distance, in particle order:
/// these are exactly the terms the front end sums into the total energy.
/// `outside[i]` reports the kernel's `distance > 0` test for particle `i`.
pub fn select_penalties<S: Copy>(outside: &Vec<bool>, dists: &Vec<S>) -> (terms: Vec<S>)
    requires
        outside@.len() == dists@.len(),
    ensures
        terms@ == selected(outside@, dists@),
{
    let mut terms: Vec<S> = Vec::new();
    let mut i: usize = 0;
    while i < outside.len()
        invariant
            outside@.len() == dists@.len(),
            i <= outside@.len(),
            terms@ == selected(outside@.take(i as int), dists@.take(i as int)),
        decreases outside@.len() - i,
    {
        proof {
            assert(outside@.take(i + 1).drop_last() =~= outside@.take(i as int));
            assert(dists@.take(i + 1).drop_last() =~= dists@.take(i as int));
        }
        if outside[i] {
            terms.push(dists[i]);
        }
        i = i + 1;
    }
    proof {
        assert(outside@.take(outside@.len() as int) =~= outside@);
        assert(dists@.take(dists@.len() as int) =~= dists@);
    }
    terms
}

/// Fill the caller's 2N gradient buffer: slot `i` and slot `N + i` receive
/// the kernel gradient of particle `i` when it lies outside its region,
/// and zero otherwise — so particles inside their region leave their slots
/// exactly zero.
pub fn fill_gradient<S: Copy>(grad: &mut Vec<S>, contribs: &Vec<Option<(S, S)>>, zero: S)
    requires
        old(grad)@.len() == 2 * contribs@.len(),
    ensures
        final(grad)@.len() == old(grad)@.len(),
        forall|i: int|
            0 <= i < contribs@.len() ==> final(grad)@[i] == match contribs@[i] {
                Option::Some(g) => g.0,
                Option::None => zero,
            },
        forall|i: int|
            0 <= i < contribs@.len() ==> final(grad)@[contribs@.len() + i] == match (#[trigger] contribs@[i]) {
                Option::Some(g) => g.1,
                Option::None => zero,
            },
{
    let n = contribs.len();
    let mut i: usize = 0;
    while i < n
        invariant
            n == contribs@.len(),
            grad@.len() == 2 * n,
            i <= n,
            forall|j: int|
                0 <= j < i ==> grad@[j] == match contribs@[j] {
                    Option::Some(g) => g.0,
                    Option::None => zero,
                },
            forall|j: int|
                0 <= j < i ==> grad@[n + j] == match (#[trigger] contribs@[j]) {
                    Option::Some(g) => g.1,
                    Option::None => zero,
                },
        decreases n - i,
    {
        let buffer_len = grad.len();
        assert(n + i < buffer_len);
        match contribs[i] {
            Option::Some(g) => {
                grad.set(i, g.0);
                grad.set(n + i, g.1);
            },
            Option::None => {
                grad.set(i, zero);
                grad.set(n + i, zero);
            },
        }
        i = i + 1;
    }
}

/// One-sided barrier law, energy side: when no particle lies outside its
/// containment region, no term at all enters the energy sum.
pub proof fn lemma_all_inside_no_penalty<S>(flags: Seq<bool>, vals: Seq<S>)
    requires
        flags.len() == vals.len(),
        forall|i: int| 0 <= i < flags.len() ==> !flags[i],
    ensures
        selected(flags, vals) == Seq::<S>::empty(),
    decreases flags.len(),
{
    if flags.len() > 0 {
        lemma_all_inside_no_penalty(flags.drop_last(), vals.drop_last());
    }
}

/// One-sided barrier law, gradient side: when no particle lies outside
/// its containment region, the assembled gradient buffer is zero in every
/// slot.
pub proof fn lemma_all_inside_zero_gradient<S>(grad: Seq<S>, contribs: Seq<Option<(S, S)>>, zero: S)
    requires
        grad.len() == 2 * contribs.len(),
        forall|i: int|
            0 <= i < contribs.len() ==> grad[i] == match contribs[i] {
                Option::Some(g) => g.0,
                Option::None => zero,
            },
        forall|i: int|
            0 <= i < contribs.len() ==> grad[contribs.len() + i] == match (#[trigger] contribs[i]) {
                Option::Some(g) => g.1,
                Option::None => zero,
            },
        forall|i: int| 0 <= i < contribs.len() ==> contribs[i] is None,
    ensures
        forall|j: int| 0 <= j < grad.len() ==> grad[j] == zero,
{
    assert forall|j: int| 0 <= j < grad.len() implies grad[j] == zero by {
        let n = contribs.len() as int;
        if j < n {
            assert(grad[j] == zero);
        } else {
            assert(contribs[j - n] is None);
            assert(grad[n + (j - n)] == zero);
        }
    }
}

} // verus!
