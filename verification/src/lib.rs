//! A verified engine for a grid-based cellular automaton: a dense,
//! row-major 2D container with checked indexing, and a stepper that
//! advances a grid of binary cells by one generation of the standard
//! Game-of-Life rule under a finite (non-wrapping) boundary policy.

pub mod life;
pub mod utils;
