//! Seeding of the initial particle configuration.
//!
//! The driver seeds particles from a deterministic pseudo-random source —
//! a PCG generator keyed by an explicit seed — drawing positions and hues
//! as uniform reals (numeric front end) and glyph types as uniform
//! integers below the containment-table size. The integer draws run here:
//! the generator is threaded through by mutable reference so the front end
//! interleaves its own draws on the same stream, keeping the stream — and
//! with it the whole run — a function of the seed alone.

use vstd::prelude::*;

verus! {

/// The PCG-family generator (`Pcg64Mcg`, also known as `Mcg128Xsl64`) that
/// seeds a run. Opaque here: values are only threaded through to draws.
#[verifier::external_type_specification]
#[verifier::external_body]
pub struct ExPcg64Mcg(rand_pcg::Pcg64Mcg);

/// Relies on `rand::Rng::gen_range` over `0..bound`: the draw is uniform
/// within the given range, so the result is below `bound`; the call panics
/// on an empty range, which the precondition rules out. Nothing more is
/// promised — the value drawn depends on the generator's state.
#[verifier::external_body]
fn gen_index(rng: &mut rand_pcg::Pcg64Mcg, bound: usize) -> (r: usize)
    requires
        0 < bound,
    ensures
        r < bound,
{
    rand::Rng::gen_range(rng, 0..bound)
}

/// Draw the glyph-type index of each of `n` particles: `n` uniform draws
/// below `table_len`, the number of containment polygons, so every
/// particle's type indexes a polygon of the table.
pub fn sample_types(rng: &mut rand_pcg::Pcg64Mcg, n: usize, table_len: usize) -> (types: Vec<
    usize,
>)
    requires
        0 < table_len,
    ensures
        types@.len() == n,
        forall|i: int| 0 <= i < n ==> types@[i] < table_len,
{
    let mut types: Vec<usize> = Vec::new();
    let mut drawn: usize = 0;
    while drawn < n
        invariant
            0 < table_len,
            drawn <= n,
            types@.len() == drawn,
            forall|i: int| 0 <= i < drawn ==> types@[i] < table_len,
        decreases n - drawn,
    {
        let t = gen_index(rng, table_len);
        types.push(t);
        drawn = drawn + 1;
    }
    types
}

} // verus!
