//! Exact complex arithmetic for the entries of the Dirac matrices.
//!
//! The Dirac alpha and beta matrices have entries whose real and imaginary
//! parts are small integers, and a Hamiltonian built from exact scalar
//! coefficients stays in this ring.  Working over integer parts lets every
//! algebraic identity (Hermiticity, anticommutation, the squared Hamiltonian)
//! be proved exactly rather than up to rounding.

use vstd::prelude::*;

verus! {

/// Mathematical model of a complex number: a pair of unbounded integers.
pub struct SpecComplex {
    pub re: int,
    pub im: int,
}

/// Complex sum.
pub open spec fn c_add(x: SpecComplex, y: SpecComplex) -> SpecComplex {
    SpecComplex { re: x.re + y.re, im: x.im + y.im }
}

/// Complex product: `(a + bi)(c + di) = (ac - bd) + (ad + bc)i`.
pub open spec fn c_mul(x: SpecComplex, y: SpecComplex) -> SpecComplex {
    SpecComplex { re: x.re * y.re - x.im * y.im, im: x.re * y.im + x.im * y.re }
}

/// Complex conjugate.
pub open spec fn c_conj(x: SpecComplex) -> SpecComplex {
    SpecComplex { re: x.re, im: -x.im }
}

/// The real number `a` viewed as a complex number.
pub open spec fn c_real(a: int) -> SpecComplex {
    SpecComplex { re: a, im: 0 }
}

/// Complex zero.
pub open spec fn c_zero() -> SpecComplex {
    c_real(0)
}

/// Complex one.
pub open spec fn c_one() -> SpecComplex {
    c_real(1)
}

/// Both components of `x` are bounded by `b` in absolute value.
pub open spec fn c_bounded(x: SpecComplex, b: int) -> bool {
    -b <= x.re <= b && -b <= x.im <= b
}

/// Bound on the magnitude of each component accepted by the executable
/// arithmetic; chosen so that products and four-term sums of products stay
/// well inside `i64`.
pub const COMPONENT_BOUND: i64 = 1_000_000_000;

/// A complex number with exact integer real and imaginary parts: the entry
/// type of the Dirac matrices.
#[derive(Clone, Copy, Debug, PartialEq, Eq, Structural)]
pub struct Complex {
    pub re: i64,
    pub im: i64,
}

impl View for Complex {
    type V = SpecComplex;

    open spec fn view(&self) -> SpecComplex {
        SpecComplex { re: self.re as int, im: self.im as int }
    }
}

/// Facts about integer products that the matrix-algebra proofs use; the
/// default prover leaves products of two variables uninterpreted.
pub proof fn lemma_mul_units(x: int, y: int)
    by (nonlinear_arith)
    ensures
        x * 0 == 0,
        0 * x == 0,
        x * 1 == x,
        1 * x == x,
        x * (-1) == -x,
        (-1) * x == -x,
        x * y == y * x,
        x * (-y) == -(x * y),
        (-x) * y == -(x * y),
        (-x) * (-y) == x * y,
{
}

/// The product of two values bounded by `b` is bounded by `b * b`.
pub proof fn lemma_mul_bound(x: int, y: int, b: int)
    by (nonlinear_arith)
    requires
        0 <= b,
        -b <= x <= b,
        -b <= y <= b,
    ensures
        -(b * b) <= x * y <= b * b,
{
}

impl Complex {
    pub fn new(re: i64, im: i64) -> (c: Complex)
        ensures
            c@ == (SpecComplex { re: re as int, im: im as int }),
    {
        Complex { re, im }
    }

    /// The real number `a` as a complex value.
    pub fn from_real(a: i64) -> (c: Complex)
        ensures
            c@ == c_real(a as int),
    {
        Complex { re: a, im: 0 }
    }

    pub fn add(self, other: Complex) -> (c: Complex)
        requires
            i64::MIN as int <= self@.re + other@.re <= i64::MAX as int,
            i64::MIN as int <= self@.im + other@.im <= i64::MAX as int,
        ensures
            c@ == c_add(self@, other@),
    {
        Complex { re: self.re + other.re, im: self.im + other.im }
    }

    pub fn mul(self, other: Complex) -> (c: Complex)
        requires
            c_bounded(self@, COMPONENT_BOUND as int),
            c_bounded(other@, COMPONENT_BOUND as int),
        ensures
            c@ == c_mul(self@, other@),
            c_bounded(c@, 2 * COMPONENT_BOUND as int * COMPONENT_BOUND as int),
    {
        proof {
            let b: int = COMPONENT_BOUND as int;
            lemma_mul_bound(self@.re, other@.re, b);
            lemma_mul_bound(self@.im, other@.im, b);
            lemma_mul_bound(self@.re, other@.im, b);
            lemma_mul_bound(self@.im, other@.re, b);
        }
        Complex {
            re: self.re * other.re - self.im * other.im,
            im: self.re * other.im + self.im * other.re,
        }
    }

    pub fn conj(self) -> (c: Complex)
        requires
            i64::MIN < self.im,
        ensures
            c@ == c_conj(self@),
    {
        Complex { re: self.re, im: -self.im }
    }
}

} // verus!
