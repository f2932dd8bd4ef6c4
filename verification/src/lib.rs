//! Exact algebraic core of a free-particle Dirac eigensolver, together with
//! Pauli-exclusion bookkeeping for electron configurations.
//!
//! The Dirac Hamiltonian `H = c*p*alpha_x + m*c^2*beta` is determined, up to
//! the two real scalar coefficients `c*p` and `m*c^2`, by the constant alpha
//! and beta matrices.  This crate builds those matrices over exact integer
//! complex entries and proves the algebraic identities that force the
//! spectrum of every such Hamiltonian: Hermiticity (real eigenvalues),
//! `H^2 = ((c*p)^2 + (m*c^2)^2) * I` (eigenvalues are `+E` or `-E` with
//! `E = sqrt((c*p)^2 + (m*c^2)^2)`), and a traceless `H` (each sign occurs
//! twice).  A floating-point driver can then scale the verified matrices by
//! its own coefficients and hand the result to a numerical eigensolver.

pub mod complex;
pub mod dirac;
pub mod matrix;
pub mod pauli;
pub mod solver;
