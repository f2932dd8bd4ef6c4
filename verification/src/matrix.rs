//! 4x4 complex matrices with exact integer entries.
//!
//! A matrix is modelled as a flat row-major sequence of 16 `SpecComplex`
//! entries; `ment(m, i, j)` reads the entry in row `i`, column `j`.  The
//! executable `Matrix4` mirrors the model exactly, so matrix products,
//! Hermiticity checks and the Dirac algebra identities are proved without
//! any rounding concerns.

use vstd::prelude::*;

use crate::complex::COMPONENT_BOUND;
use crate::complex::Complex;
use crate::complex::SpecComplex;
use crate::complex::c_add;
use crate::complex::c_bounded;
use crate::complex::c_conj;
use crate::complex::c_mul;
use crate::complex::c_one;
use crate::complex::c_zero;

verus! {

/// A well-formed matrix model: 16 entries, row-major.
pub open spec fn mat_wf(m: Seq<SpecComplex>) -> bool {
    m.len() == 16
}

/// Entry in row `i`, column `j`.
pub open spec fn ment(m: Seq<SpecComplex>, i: int, j: int) -> SpecComplex {
    m[i * 4 + j]
}

/// Entrywise sum.
pub open spec fn mat_add(x: Seq<SpecComplex>, y: Seq<SpecComplex>) -> Seq<SpecComplex> {
    Seq::new(16, |k: int| c_add(x[k], y[k]))
}

/// Multiplication of every entry by the scalar `s`.
pub open spec fn mat_scale(s: SpecComplex, m: Seq<SpecComplex>) -> Seq<SpecComplex> {
    Seq::new(16, |k: int| c_mul(s, m[k]))
}

/// Entry `(i, j)` of the matrix product `x * y`.
pub open spec fn mul_entry(
    x: Seq<SpecComplex>,
    y: Seq<SpecComplex>,
    i: int,
    j: int,
) -> SpecComplex {
    c_add(
        c_add(
            c_add(c_mul(ment(x, i, 0), ment(y, 0, j)), c_mul(ment(x, i, 1), ment(y, 1, j))),
            c_mul(ment(x, i, 2), ment(y, 2, j)),
        ),
        c_mul(ment(x, i, 3), ment(y, 3, j)),
    )
}

/// Matrix product.
pub open spec fn mat_mul(x: Seq<SpecComplex>, y: Seq<SpecComplex>) -> Seq<SpecComplex> {
    Seq::new(16, |k: int| mul_entry(x, y, k / 4, k % 4))
}

/// Conjugate transpose: entry `(i, j)` is the conjugate of entry `(j, i)`.
pub open spec fn conj_transpose(m: Seq<SpecComplex>) -> Seq<SpecComplex> {
    Seq::new(16, |k: int| c_conj(ment(m, k % 4, k / 4)))
}

/// A matrix equal to its own conjugate transpose.
pub open spec fn is_hermitian(m: Seq<SpecComplex>) -> bool {
    mat_wf(m) && forall|i: int, j: int|
        0 <= i < 4 && 0 <= j < 4 ==> ment(m, i, j) == c_conj(ment(m, j, i))
}

/// The 4x4 identity matrix.
pub open spec fn identity() -> Seq<SpecComplex> {
    Seq::new(16, |k: int| if k / 4 == k % 4 { c_one() } else { c_zero() })
}

/// The 4x4 zero matrix.
pub open spec fn zero_matrix() -> Seq<SpecComplex> {
    Seq::new(16, |k: int| c_zero())
}

/// Sum of the diagonal entries.
pub open spec fn trace(m: Seq<SpecComplex>) -> SpecComplex {
    c_add(c_add(c_add(ment(m, 0, 0), ment(m, 1, 1)), ment(m, 2, 2)), ment(m, 3, 3))
}

/// Every entry has both components bounded by `b` in absolute value.
pub open spec fn mat_bounded(m: Seq<SpecComplex>, b: int) -> bool {
    forall|k: int| 0 <= k < m.len() ==> c_bounded(#[trigger] m[k], b)
}

/// A 4x4 matrix of exact complex entries, stored row-major.
#[derive(Debug)]
pub struct Matrix4 {
    entries: Vec<Complex>,
}

impl View for Matrix4 {
    type V = Seq<SpecComplex>;

    closed spec fn view(&self) -> Seq<SpecComplex> {
        self.entries@.map_values(|c: Complex| c@)
    }
}

impl Matrix4 {
    /// Builds a matrix from its 16 row-major entries.
    pub fn from_entries(entries: Vec<Complex>) -> (m: Matrix4)
        requires
            entries@.len() == 16,
        ensures
            mat_wf(m@),
            forall|k: int| 0 <= k < 16 ==> m@[k] == entries@[k]@,
    {
        Matrix4 { entries }
    }

    /// Reads the entry in row `i`, column `j`.
    pub fn entry(&self, i: usize, j: usize) -> (c: Complex)
        requires
            mat_wf(self@),
            i < 4,
            j < 4,
        ensures
            c@ == ment(self@, i as int, j as int),
    {
        self.entries[i * 4 + j]
    }

    /// Entrywise sum of two matrices.
    pub fn add(&self, other: &Matrix4) -> (m: Matrix4)
        requires
            mat_wf(self@),
            mat_wf(other@),
            mat_bounded(self@, 2 * COMPONENT_BOUND as int * COMPONENT_BOUND as int),
            mat_bounded(other@, 2 * COMPONENT_BOUND as int * COMPONENT_BOUND as int),
        ensures
            m@ == mat_add(self@, other@),
    {
        let mut entries: Vec<Complex> = Vec::new();
        let mut k: usize = 0;
        while k < 16
            invariant
                mat_wf(self@),
                mat_wf(other@),
                mat_bounded(self@, 2 * COMPONENT_BOUND as int * COMPONENT_BOUND as int),
                mat_bounded(other@, 2 * COMPONENT_BOUND as int * COMPONENT_BOUND as int),
                k <= 16,
                entries@.len() == k as int,
                forall|k0: int| 0 <= k0 < k as int ==> entries@[k0]@ == c_add(
                    self@[k0],
                    other@[k0],
                ),
            decreases 16 - k,
        {
            proof {
                assert(self@[k as int] == self.entries@[k as int]@);
                assert(other@[k as int] == other.entries@[k as int]@);
            }
            entries.push(self.entries[k].add(other.entries[k]));
            k = k + 1;
        }
        let m = Matrix4 { entries };
        proof {
            assert(m@ =~= mat_add(self@, other@));
        }
        m
    }

    /// Multiplication of every entry by the scalar `s`.
    pub fn scale(&self, s: Complex) -> (m: Matrix4)
        requires
            mat_wf(self@),
            c_bounded(s@, COMPONENT_BOUND as int),
            mat_bounded(self@, COMPONENT_BOUND as int),
        ensures
            m@ == mat_scale(s@, self@),
    {
        let mut entries: Vec<Complex> = Vec::new();
        let mut k: usize = 0;
        while k < 16
            invariant
                mat_wf(self@),
                c_bounded(s@, COMPONENT_BOUND as int),
                mat_bounded(self@, COMPONENT_BOUND as int),
                k <= 16,
                entries@.len() == k as int,
                forall|k0: int| 0 <= k0 < k as int ==> entries@[k0]@ == c_mul(s@, self@[k0]),
            decreases 16 - k,
        {
            proof {
                assert(self@[k as int] == self.entries@[k as int]@);
            }
            entries.push(s.mul(self.entries[k]));
            k = k + 1;
        }
        let m = Matrix4 { entries };
        proof {
            assert(m@ =~= mat_scale(s@, self@));
        }
        m
    }

    /// Matrix product `self * other`.
    pub fn mul(&self, other: &Matrix4) -> (m: Matrix4)
        requires
            mat_wf(self@),
            mat_wf(other@),
            mat_bounded(self@, COMPONENT_BOUND as int),
            mat_bounded(other@, COMPONENT_BOUND as int),
        ensures
            m@ == mat_mul(self@, other@),
    {
        let mut entries: Vec<Complex> = Vec::new();
        let mut k: usize = 0;
        while k < 16
            invariant
                mat_wf(self@),
                mat_wf(other@),
                mat_bounded(self@, COMPONENT_BOUND as int),
                mat_bounded(other@, COMPONENT_BOUND as int),
                k <= 16,
                entries@.len() == k as int,
                forall|k0: int| 0 <= k0 < k as int ==> entries@[k0]@ == mul_entry(
                    self@,
                    other@,
                    k0 / 4,
                    k0 % 4,
                ),
            decreases 16 - k,
        {
            let i: usize = k / 4;
            let j: usize = k % 4;
            let p0 = self.entry(i, 0).mul(other.entry(0, j));
            let p1 = self.entry(i, 1).mul(other.entry(1, j));
            let p2 = self.entry(i, 2).mul(other.entry(2, j));
            let p3 = self.entry(i, 3).mul(other.entry(3, j));
            let sum = p0.add(p1).add(p2).add(p3);
            entries.push(sum);
            k = k + 1;
        }
        let m = Matrix4 { entries };
        proof {
            assert(m@ =~= mat_mul(self@, other@));
        }
        m
    }

    /// Decides whether the matrix equals its own conjugate transpose.
    pub fn hermitian_check(&self) -> (r: bool)
        requires
            mat_wf(self@),
        ensures
            r == is_hermitian(self@),
    {
        let mut i: usize = 0;
        while i < 4
            invariant
                mat_wf(self@),
                i <= 4,
                forall|i0: int, j0: int|
                    0 <= i0 < i as int && 0 <= j0 < 4 ==> ment(self@, i0, j0) == c_conj(
                        ment(self@, j0, i0),
                    ),
            decreases 4 - i,
        {
            let mut j: usize = 0;
            while j < 4
                invariant
                    mat_wf(self@),
                    i < 4,
                    j <= 4,
                    forall|i0: int, j0: int|
                        0 <= i0 < i as int && 0 <= j0 < 4 ==> ment(self@, i0, j0) == c_conj(
                            ment(self@, j0, i0),
                        ),
                    forall|j0: int|
                        0 <= j0 < j as int ==> ment(self@, i as int, j0) == c_conj(
                            ment(self@, j0, i as int),
                        ),
                decreases 4 - j,
            {
                let a = self.entry(i, j);
                let b = self.entry(j, i);
                if !(a.re == b.re && (a.im as i128) + (b.im as i128) == 0) {
                    return false;
                }
                j = j + 1;
            }
            i = i + 1;
        }
        true
    }
}

} // verus!
