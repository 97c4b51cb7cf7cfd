//! The particle set being laid out.
//!
//! N particles are stored as three parallel arrays: a glyph-type index per
//! particle, a hue per particle (a display attribute the optimizer never
//! reads), and a flattened coordinate buffer of length 2N whose first N
//! entries are the x values and last N the y values — particle `i` sits at
//! `(coords[i], coords[N + i])`. The scalar type is generic so the numeric
//! front end can store its `f64` values directly; the invariant tying the
//! three lengths together, and the indexing that depends on it, are
//! verified here.

use vstd::prelude::*;

verus! {

pub struct ParticleSet<S> {
    types: Vec<usize>,
    hues: Vec<S>,
    coords: Vec<S>,
}

impl<S> ParticleSet<S> {
    pub closed spec fn types_seq(&self) -> Seq<usize> {
        self.types@
    }

    pub closed spec fn hues_seq(&self) -> Seq<S> {
        self.hues@
    }

    pub closed spec fn coords_seq(&self) -> Seq<S> {
        self.coords@
    }

    /// Number of particles.
    pub open spec fn count(&self) -> int {
        self.types_seq().len() as int
    }

    /// The three arrays are consistent: one type and one hue per particle,
    /// two coordinates per particle.
    pub open spec fn inv(&self) -> bool {
        &&& self.hues_seq().len() == self.count()
        &&& self.coords_seq().len() == 2 * self.count()
    }

    /// Assemble a particle set from its three arrays. Callers must have
    /// validated the lengths; a mismatch is a programming error upstream,
    /// not a runtime condition of the optimizer.
    pub fn new(types: Vec<usize>, hues: Vec<S>, coords: Vec<S>) -> (p: ParticleSet<S>)
        requires
            hues@.len() == types@.len(),
            coords@.len() == 2 * types@.len(),
        ensures
            p.inv(),
            p.types_seq() == types@,
            p.hues_seq() == hues@,
            p.coords_seq() == coords@,
    {
        ParticleSet { types, hues, coords }
    }

    /// Number of particles.
    pub fn len(&self) -> (n: usize)
        ensures
            n == self.count(),
    {
        self.types.len()
    }

    /// Glyph-type index of particle `i`.
    pub fn type_of(&self, i: usize) -> (t: usize)
        requires
            i < self.count(),
        ensures
            t == self.types_seq()[i as int],
    {
        self.types[i]
    }

    /// Hue of particle `i`.
    pub fn hue_of(&self, i: usize) -> (h: &S)
        requires
            self.inv(),
            i < self.count(),
        ensures
            *h == self.hues_seq()[i as int],
    {
        &self.hues[i]
    }

    /// X coordinate of particle `i`: slot `i` of the flattened buffer.
    pub fn x_of(&self, i: usize) -> (x: &S)
        requires
            self.inv(),
            i < self.count(),
        ensures
            *x == self.coords_seq()[i as int],
    {
        &self.coords[i]
    }

    /// Y coordinate of particle `i`: slot `count + i` of the flattened
    /// buffer.
    pub fn y_of(&self, i: usize) -> (y: &S)
        requires
            self.inv(),
            i < self.count(),
        ensures
            *y == self.coords_seq()[self.count() + i],
    {
        let n = self.coords.len();
        assert(self.types@.len() + i < n);
        &self.coords[self.types.len() + i]
    }

    /// The glyph-type array, for handing a configuration to the sink.
    pub fn types(&self) -> (r: &Vec<usize>)
        ensures
            r@ == self.types_seq(),
    {
        &self.types
    }

    /// The hue array, for handing a configuration to the sink.
    pub fn hues(&self) -> (r: &Vec<S>)
        ensures
            r@ == self.hues_seq(),
    {
        &self.hues
    }

    /// The flattened coordinate buffer, for handing to the oracle and the
    /// sink.
    pub fn coords(&self) -> (r: &Vec<S>)
        ensures
            r@ == self.coords_seq(),
    {
        &self.coords
    }

    /// Replace the coordinate buffer with the one the solver advanced,
    /// leaving types and hues untouched.
    pub fn set_coords(&mut self, coords: Vec<S>)
        requires
            old(self).inv(),
            coords@.len() == 2 * old(self).count(),
        ensures
            final(self).inv(),
            final(self).count() == old(self).count(),
            final(self).types_seq() == old(self).types_seq(),
            final(self).hues_seq() == old(self).hues_seq(),
            final(self).coords_seq() == coords@,
    {
        self.coords = coords;
    }
}

} // verus!
