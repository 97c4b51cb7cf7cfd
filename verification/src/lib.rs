//! Core of a constrained glyph-layout optimizer.
//!
//! Glyph silhouettes are packed inside a background silhouette by treating
//! each glyph's reference point as a particle driven by gradient descent
//! against a penalty field over its allowed placement region. The numeric
//! kernels (signed distance, energy, line-search arithmetic) run on `f64`
//! and live with the unverified front end; this crate holds and verifies
//! the discrete machinery around them: the solver's rolling history, the
//! line-search and termination decisions, the energy assembler's barrier
//! selection and gradient scatter, the driver's frame bookkeeping and
//! exact-equality stopping rule, the ray-casting parity logic, and the
//! particle-set invariants.

pub mod driver;
pub mod energy;
pub mod fp;
pub mod geometry;
pub mod history;
pub mod particles;
pub mod seeding;
pub mod solver;
