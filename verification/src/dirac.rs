//! The free-particle Dirac algebra.
//!
//! `alpha_x` and `beta` are the two constant Hermitian matrices of the
//! one-dimensional free-particle Dirac Hamiltonian
//! `H = c*p*alpha_x + m*c^2*beta`.  Everything the spectrum of `H` owes to
//! algebra is proved here exactly, for arbitrary integer scalar coefficients
//! `a = c*p` and `b = m*c^2`:
//!
//! * `alpha_x` and `beta` are Hermitian, square to the identity and
//!   anticommute;
//! * `H(a, b)` is Hermitian, so its eigenvalues are real;
//! * `H(a, b)^2 = (a^2 + b^2) * I`, so every eigenvalue is `+E` or `-E` with
//!   `E = sqrt(a^2 + b^2)`;
//! * `H(a, b)` is traceless, so each sign occurs for exactly two of the four
//!   eigenvalues: the spectrum is two degenerate pairs `{+E, +E, -E, -E}`
//!   and the gap between the branches at `p = 0` is `2*m*c^2`.
//!
//! A floating-point driver scales these verified matrices by its own `c*p`
//! and `m*c^2` and hands the result to a Hermitian eigensolver.

use vstd::prelude::*;

use crate::complex::COMPONENT_BOUND;
use crate::complex::Complex;
use crate::complex::SpecComplex;
use crate::complex::c_one;
use crate::complex::c_real;
use crate::complex::c_zero;
use crate::complex::lemma_mul_units;
use crate::matrix::Matrix4;
use crate::matrix::identity;
use crate::matrix::is_hermitian;
use crate::matrix::mat_add;
use crate::matrix::mat_bounded;
use crate::matrix::mat_mul;
use crate::matrix::mat_scale;
use crate::matrix::trace;
use crate::matrix::zero_matrix;

verus! {

/// The x-direction Dirac alpha matrix: off-diagonal sigma_x blocks, i.e.
/// ones on the antidiagonal (row-major positions 3, 6, 9 and 12).
pub open spec fn spec_alpha_x() -> Seq<SpecComplex> {
    Seq::new(
        16,
        |k: int| if k == 3 || k == 6 || k == 9 || k == 12 {
            c_one()
        } else {
            c_zero()
        },
    )
}

/// The Dirac beta matrix: `diag(1, 1, -1, -1)`.
pub open spec fn spec_beta() -> Seq<SpecComplex> {
    Seq::new(
        16,
        |k: int| if k == 0 || k == 5 {
            c_one()
        } else if k == 10 || k == 15 {
            c_real(-1)
        } else {
            c_zero()
        },
    )
}

/// The free-particle Dirac Hamiltonian `a * alpha_x + b * beta` with exact
/// scalar coefficients `a = c*p` and `b = m*c^2`.
pub open spec fn spec_hamiltonian(a: int, b: int) -> Seq<SpecComplex> {
    mat_add(mat_scale(c_real(a), spec_alpha_x()), mat_scale(c_real(b), spec_beta()))
}

/// Builds the alpha_x matrix.
pub fn alpha_x() -> (m: Matrix4)
    ensures
        m@ == spec_alpha_x(),
        mat_bounded(m@, 1),
{
    let mut entries: Vec<Complex> = Vec::new();
    entries.push(Complex::from_real(0));
    entries.push(Complex::from_real(0));
    entries.push(Complex::from_real(0));
    entries.push(Complex::from_real(1));
    entries.push(Complex::from_real(0));
    entries.push(Complex::from_real(0));
    entries.push(Complex::from_real(1));
    entries.push(Complex::from_real(0));
    entries.push(Complex::from_real(0));
    entries.push(Complex::from_real(1));
    entries.push(Complex::from_real(0));
    entries.push(Complex::from_real(0));
    entries.push(Complex::from_real(1));
    entries.push(Complex::from_real(0));
    entries.push(Complex::from_real(0));
    entries.push(Complex::from_real(0));
    let m = Matrix4::from_entries(entries);
    proof {
        assert(m@ =~= spec_alpha_x());
    }
    m
}

/// Builds the beta matrix.
pub fn beta() -> (m: Matrix4)
    ensures
        m@ == spec_beta(),
        mat_bounded(m@, 1),
{
    let mut entries: Vec<Complex> = Vec::new();
    entries.push(Complex::from_real(1));
    entries.push(Complex::from_real(0));
    entries.push(Complex::from_real(0));
    entries.push(Complex::from_real(0));
    entries.push(Complex::from_real(0));
    entries.push(Complex::from_real(1));
    entries.push(Complex::from_real(0));
    entries.push(Complex::from_real(0));
    entries.push(Complex::from_real(0));
    entries.push(Complex::from_real(0));
    entries.push(Complex::from_real(-1));
    entries.push(Complex::from_real(0));
    entries.push(Complex::from_real(0));
    entries.push(Complex::from_real(0));
    entries.push(Complex::from_real(0));
    entries.push(Complex::from_real(-1));
    let m = Matrix4::from_entries(entries);
    proof {
        assert(m@ =~= spec_beta());
    }
    m
}

/// Builds the Hamiltonian `a * alpha_x + b * beta` with exact integer
/// coefficients.  All eight nonzero entries are real.
pub fn build_hamiltonian(a: i64, b: i64) -> (m: Matrix4)
    requires
        -COMPONENT_BOUND <= a <= COMPONENT_BOUND,
        -COMPONENT_BOUND <= b <= COMPONENT_BOUND,
    ensures
        m@ == spec_hamiltonian(a as int, b as int),
        mat_bounded(m@, COMPONENT_BOUND as int),
{
    let mut entries: Vec<Complex> = Vec::new();
    entries.push(Complex::from_real(b));
    entries.push(Complex::from_real(0));
    entries.push(Complex::from_real(0));
    entries.push(Complex::from_real(a));
    entries.push(Complex::from_real(0));
    entries.push(Complex::from_real(b));
    entries.push(Complex::from_real(a));
    entries.push(Complex::from_real(0));
    entries.push(Complex::from_real(0));
    entries.push(Complex::from_real(a));
    entries.push(Complex::from_real(-b));
    entries.push(Complex::from_real(0));
    entries.push(Complex::from_real(a));
    entries.push(Complex::from_real(0));
    entries.push(Complex::from_real(0));
    entries.push(Complex::from_real(-b));
    let m = Matrix4::from_entries(entries);
    proof {
        lemma_mul_units(a as int, 0);
        lemma_mul_units(b as int, 0);
        lemma_mul_units(0, 0);
        assert(m@ =~= spec_hamiltonian(a as int, b as int));
    }
    m
}

/// The alpha_x matrix is Hermitian.
pub proof fn lemma_alpha_x_hermitian()
    ensures
        is_hermitian(spec_alpha_x()),
{
}

/// The beta matrix is Hermitian.
pub proof fn lemma_beta_hermitian()
    ensures
        is_hermitian(spec_beta()),
{
}

/// The alpha_x matrix squares to the identity.
pub proof fn lemma_alpha_x_involutive()
    ensures
        mat_mul(spec_alpha_x(), spec_alpha_x()) == identity(),
{
    lemma_mul_units(0, 0);
    lemma_mul_units(1, 0);
    lemma_mul_units(-1, 0);
    assert(mat_mul(spec_alpha_x(), spec_alpha_x()) =~= identity());
}

/// The beta matrix squares to the identity.
pub proof fn lemma_beta_involutive()
    ensures
        mat_mul(spec_beta(), spec_beta()) == identity(),
{
    lemma_mul_units(0, 0);
    lemma_mul_units(1, 0);
    lemma_mul_units(-1, 0);
    assert(mat_mul(spec_beta(), spec_beta()) =~= identity());
}

/// alpha_x and beta anticommute: `alpha_x * beta + beta * alpha_x = 0`.
pub proof fn lemma_anticommutation()
    ensures
        mat_add(
            mat_mul(spec_alpha_x(), spec_beta()),
            mat_mul(spec_beta(), spec_alpha_x()),
        ) == zero_matrix(),
{
    lemma_mul_units(0, 0);
    lemma_mul_units(1, 0);
    lemma_mul_units(-1, 0);
    assert(mat_add(
        mat_mul(spec_alpha_x(), spec_beta()),
        mat_mul(spec_beta(), spec_alpha_x()),
    ) =~= zero_matrix());
}

/// The Hamiltonian is Hermitian for every choice of real scalar
/// coefficients, so all four of its eigenvalues are real.
pub proof fn lemma_hamiltonian_hermitian(a: int, b: int)
    ensures
        is_hermitian(spec_hamiltonian(a, b)),
{
    lemma_mul_units(a, 0);
    lemma_mul_units(b, 0);
    lemma_mul_units(0, 0);
}

/// The squared Hamiltonian is the scalar matrix `(a^2 + b^2) * I`, so every
/// eigenvalue `E` of the Hamiltonian satisfies `E^2 = a^2 + b^2`: the
/// spectrum lies in `{ +sqrt(a^2 + b^2), -sqrt(a^2 + b^2) }`.
pub proof fn lemma_hamiltonian_squared(a: int, b: int)
    ensures
        mat_mul(spec_hamiltonian(a, b), spec_hamiltonian(a, b)) == mat_scale(
            c_real(a * a + b * b),
            identity(),
        ),
{
    lemma_mul_units(a, b);
    lemma_mul_units(b, a);
    lemma_mul_units(a, a);
    lemma_mul_units(b, b);
    lemma_mul_units(0, 0);
    lemma_mul_units(a * a + b * b, 0);
    let h = spec_hamiltonian(a, b);
    let lhs = mat_mul(h, h);
    let rhs = mat_scale(c_real(a * a + b * b), identity());
    assert(lhs[0] == rhs[0]);
    assert(lhs[1] == rhs[1]);
    assert(lhs[2] == rhs[2]);
    assert(lhs[3] == rhs[3]);
    assert(lhs[4] == rhs[4]);
    assert(lhs[5] == rhs[5]);
    assert(lhs[6] == rhs[6]);
    assert(lhs[7] == rhs[7]);
    assert(lhs[8] == rhs[8]);
    assert(lhs[9] == rhs[9]);
    assert(lhs[10] == rhs[10]);
    assert(lhs[11] == rhs[11]);
    assert(lhs[12] == rhs[12]);
    assert(lhs[13] == rhs[13]);
    assert(lhs[14] == rhs[14]);
    assert(lhs[15] == rhs[15]);
    assert(lhs =~= rhs);
}

/// The Hamiltonian is traceless.  Together with the squared-Hamiltonian
/// identity this forces the spectrum to be two degenerate pairs: `+E` twice
/// and `-E` twice, with a gap of `2 * E(0) = 2*m*c^2` between the branches
/// at zero momentum.
pub proof fn lemma_hamiltonian_traceless(a: int, b: int)
    ensures
        trace(spec_hamiltonian(a, b)) == c_zero(),
{
    lemma_mul_units(a, 0);
    lemma_mul_units(b, 0);
    lemma_mul_units(0, 0);
}

/// At zero momentum the Hamiltonian is the rest-mass term `b * beta` alone,
/// whose eigenvalues are `+b` and `-b` (each twice, by the beta identities):
/// the gap between the branches is `2*b = 2*m*c^2`.
pub proof fn lemma_rest_energy(b: int)
    ensures
        spec_hamiltonian(0, b) == mat_scale(c_real(b), spec_beta()),
{
    lemma_mul_units(b, 0);
    lemma_mul_units(0, 0);
    assert(spec_hamiltonian(0, b) =~= mat_scale(c_real(b), spec_beta()));
}

/// The energy-momentum relation is symmetric in the momentum: conjugating
/// by beta (its own inverse, by `lemma_beta_involutive`) turns `H(a, b)`
/// into `H(-a, b)`, so the Hamiltonians at `p` and `-p` are similar and
/// share their spectrum.
pub proof fn lemma_momentum_reflection(a: int, b: int)
    ensures
        mat_mul(mat_mul(spec_beta(), spec_hamiltonian(a, b)), spec_beta()) == spec_hamiltonian(
            -a,
            b,
        ),
{
    lemma_mul_units(a, b);
    lemma_mul_units(b, a);
    lemma_mul_units(-a, b);
    lemma_mul_units(-b, a);
    lemma_mul_units(-a, -b);
    lemma_mul_units(-b, -a);
    lemma_mul_units(0, 0);
    lemma_mul_units(1, 0);
    lemma_mul_units(-1, 0);
    let lhs = mat_mul(mat_mul(spec_beta(), spec_hamiltonian(a, b)), spec_beta());
    let rhs = spec_hamiltonian(-a, b);
    assert(lhs[0] == rhs[0]);
    assert(lhs[1] == rhs[1]);
    assert(lhs[2] == rhs[2]);
    assert(lhs[3] == rhs[3]);
    assert(lhs[4] == rhs[4]);
    assert(lhs[5] == rhs[5]);
    assert(lhs[6] == rhs[6]);
    assert(lhs[7] == rhs[7]);
    assert(lhs[8] == rhs[8]);
    assert(lhs[9] == rhs[9]);
    assert(lhs[10] == rhs[10]);
    assert(lhs[11] == rhs[11]);
    assert(lhs[12] == rhs[12]);
    assert(lhs[13] == rhs[13]);
    assert(lhs[14] == rhs[14]);
    assert(lhs[15] == rhs[15]);
    assert(lhs =~= rhs);
}

/// The spectrum of the Hamiltonian is symmetric about zero: the invertible
/// matrix `G = alpha_x * beta` (its inverse is `beta * alpha_x`) intertwines
/// `H(a, b)` with `-H(a, b)`, so the two are similar and `min(spectrum) ==
/// -max(spectrum)`.
pub proof fn lemma_spectrum_symmetric(a: int, b: int)
    ensures
        mat_mul(
            mat_mul(spec_alpha_x(), spec_beta()),
            mat_mul(spec_beta(), spec_alpha_x()),
        ) == identity(),
        mat_mul(mat_mul(spec_alpha_x(), spec_beta()), spec_hamiltonian(a, b)) == mat_mul(
            mat_scale(c_real(-1), spec_hamiltonian(a, b)),
            mat_mul(spec_alpha_x(), spec_beta()),
        ),
{
    lemma_mul_units(a, b);
    lemma_mul_units(b, a);
    lemma_mul_units(-a, b);
    lemma_mul_units(-b, a);
    lemma_mul_units(-a, -b);
    lemma_mul_units(-b, -a);
    lemma_mul_units(0, 0);
    lemma_mul_units(1, 0);
    lemma_mul_units(-1, 0);
    assert(mat_mul(
        mat_mul(spec_alpha_x(), spec_beta()),
        mat_mul(spec_beta(), spec_alpha_x()),
    ) =~= identity());
    let g = mat_mul(spec_alpha_x(), spec_beta());
    let h = spec_hamiltonian(a, b);
    let lhs = mat_mul(g, h);
    let rhs = mat_mul(mat_scale(c_real(-1), h), g);
    assert(lhs[0] == rhs[0]);
    assert(lhs[1] == rhs[1]);
    assert(lhs[2] == rhs[2]);
    assert(lhs[3] == rhs[3]);
    assert(lhs[4] == rhs[4]);
    assert(lhs[5] == rhs[5]);
    assert(lhs[6] == rhs[6]);
    assert(lhs[7] == rhs[7]);
    assert(lhs[8] == rhs[8]);
    assert(lhs[9] == rhs[9]);
    assert(lhs[10] == rhs[10]);
    assert(lhs[11] == rhs[11]);
    assert(lhs[12] == rhs[12]);
    assert(lhs[13] == rhs[13]);
    assert(lhs[14] == rhs[14]);
    assert(lhs[15] == rhs[15]);
    assert(lhs =~= rhs);
}

} // verus!

