use dirac_solver::solver::SolverError;
use dirac_solver::solver::classify_decomposition;
use dirac_solver::solver::validate_constants;
use dirac_solver::solver::validate_momentum;
use dirac_solver::solver::validate_sweep_request;

#[test]
fn accepts_physical_constants() {
    assert_eq!(validate_constants(true, true, true), Ok(()));
}

#[test]
fn rejects_degenerate_constants() {
    assert_eq!(validate_constants(false, true, true), Err(SolverError::InvalidInput));
    assert_eq!(validate_constants(true, false, true), Err(SolverError::InvalidInput));
    assert_eq!(validate_constants(true, true, false), Err(SolverError::InvalidInput));
}

#[test]
fn momentum_must_be_finite() {
    assert_eq!(validate_momentum(true), Ok(()));
    assert_eq!(validate_momentum(false), Err(SolverError::InvalidInput));
}

#[test]
fn sweep_needs_at_least_two_samples() {
    assert_eq!(validate_sweep_request(true, true, true, 1), Err(SolverError::InvalidInput));
    assert_eq!(validate_sweep_request(true, true, true, 0), Err(SolverError::InvalidInput));
    assert_eq!(validate_sweep_request(true, true, true, 2), Ok(()));
    assert_eq!(validate_sweep_request(true, true, true, 201), Ok(()));
}

#[test]
fn sweep_rejects_descending_bounds_instead_of_swapping() {
    assert_eq!(validate_sweep_request(true, true, false, 10), Err(SolverError::InvalidInput));
}

#[test]
fn sweep_rejects_non_finite_bounds() {
    assert_eq!(validate_sweep_request(false, true, true, 10), Err(SolverError::InvalidInput));
    assert_eq!(validate_sweep_request(true, false, true, 10), Err(SolverError::InvalidInput));
}

#[test]
fn decomposition_failure_is_surfaced() {
    assert_eq!(classify_decomposition(true), Ok(()));
    assert_eq!(
        classify_decomposition(false),
        Err(SolverError::EigenDecompositionError)
    );
}
