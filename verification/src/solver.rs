//! Failure policy of the Dirac solver.
//!
//! The numerical work of the solver — scaling the verified matrices by
//! floating-point coefficients and running a Hermitian eigensolver — lives
//! with the driver; Verus refuses floating point.  The driver reduces each
//! caller-supplied parameter to the predicate the design cares about
//! (finite, positive, ordered) and the functions here decide, verifiably,
//! which requests are accepted and which error each rejection carries.

use vstd::prelude::*;

verus! {

/// Why a solver request failed.
#[derive(Clone, Copy, Debug, PartialEq, Eq, Structural)]
pub enum SolverError {
    /// Caller-supplied parameters are malformed: non-finite momentum or
    /// bounds, a non-positive mass or speed of light, a negative or
    /// non-finite Planck constant, or fewer than two samples.  Never
    /// retried.
    InvalidInput,
    /// The numerical eigen-decomposition failed to converge on a
    /// well-formed Hermitian matrix.  Reported upward; a sweep aborts with
    /// no partial series.
    EigenDecompositionError,
}

/// Decides whether physical constants may configure a solver: the reduced
/// Planck constant must be finite and non-negative, the speed of light and
/// the mass finite and strictly positive.
pub fn validate_constants(
    hbar_finite_nonnegative: bool,
    c_finite_positive: bool,
    m_finite_positive: bool,
) -> (r: Result<(), SolverError>)
    ensures
        r is Ok <==> hbar_finite_nonnegative && c_finite_positive && m_finite_positive,
        r is Err ==> (r matches Err(e) && e == SolverError::InvalidInput),
{
    if hbar_finite_nonnegative && c_finite_positive && m_finite_positive {
        Ok(())
    } else {
        Err(SolverError::InvalidInput)
    }
}

/// Decides whether a single momentum may be solved: it must be finite.
pub fn validate_momentum(p_finite: bool) -> (r: Result<(), SolverError>)
    ensures
        r is Ok <==> p_finite,
        r is Err ==> (r matches Err(e) && e == SolverError::InvalidInput),
{
    if p_finite {
        Ok(())
    } else {
        Err(SolverError::InvalidInput)
    }
}

/// Decides whether a momentum sweep may run.  Both bounds must be finite,
/// the range strictly ascending, and at least two samples requested.  A
/// descending or zero-width range is rejected with `InvalidInput`, never
/// swapped: the series must be strictly ascending in momentum.
pub fn validate_sweep_request(
    p_min_finite: bool,
    p_max_finite: bool,
    bounds_ascending: bool,
    n_samples: u32,
) -> (r: Result<(), SolverError>)
    ensures
        r is Ok <==> p_min_finite && p_max_finite && bounds_ascending && n_samples >= 2,
        r is Err ==> (r matches Err(e) && e == SolverError::InvalidInput),
{
    if p_min_finite && p_max_finite && bounds_ascending && n_samples >= 2 {
        Ok(())
    } else {
        Err(SolverError::InvalidInput)
    }
}

/// Classifies the outcome of the numerical eigen-decomposition: failure to
/// converge is surfaced as `EigenDecompositionError`, never defaulted.
pub fn classify_decomposition(converged: bool) -> (r: Result<(), SolverError>)
    ensures
        r is Ok <==> converged,
        r is Err ==> (r matches Err(e) && e == SolverError::EigenDecompositionError),
{
    if converged {
        Ok(())
    } else {
        Err(SolverError::EigenDecompositionError)
    }
}

} // verus!
