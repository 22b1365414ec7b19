//! Integer core of seedable 2D simplex noise: the permutation table that
//! hashes lattice cells, and the cell, hash and gradient selection of the
//! noise kernel.

pub mod kernel;
pub mod permutation;
