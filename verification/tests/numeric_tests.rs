//! The verified alpha and beta matrices, scaled by floating-point physical
//! coefficients and handed to a Hermitian eigensolver, reproduce the
//! relativistic energy-momentum relation.

use dirac_solver::dirac::alpha_x;
use dirac_solver::dirac::beta;
use dirac_solver::matrix::Matrix4;
use nalgebra::Complex;
use nalgebra::Matrix4 as NaMatrix4;
use nalgebra::SymmetricEigen;

const C: f64 = 299792458.0;
const M: f64 = 1.0;

fn to_na(m: &Matrix4) -> NaMatrix4<Complex<f64>> {
    NaMatrix4::from_fn(|i, j| {
        let e = m.entry(i, j);
        Complex::new(e.re as f64, e.im as f64)
    })
}

/// `c*p*alpha_x + m*c^2*beta` over `f64`, built from the verified matrices.
fn hamiltonian(p: f64) -> NaMatrix4<Complex<f64>> {
    let a = Complex::new(C * p, 0.0);
    let b = Complex::new(M * C * C, 0.0);
    to_na(&alpha_x()) * a + to_na(&beta()) * b
}

/// The four eigenvalues, sorted ascending.
fn eigenvalues(p: f64) -> [f64; 4] {
    let eig = SymmetricEigen::try_new(hamiltonian(p), 1.0e-13, 0)
        .expect("eigen-decomposition of a 4x4 Hermitian matrix");
    let mut ev = [0.0f64; 4];
    for i in 0..4 {
        ev[i] = eig.eigenvalues[i];
    }
    ev.sort_by(|x, y| x.partial_cmp(y).unwrap());
    ev
}

fn closed_form_energy(p: f64) -> f64 {
    ((C * p) * (C * p) + (M * C * C) * (M * C * C)).sqrt()
}

fn relative_close(x: f64, y: f64, tol: f64) -> bool {
    (x - y).abs() <= tol * x.abs().max(y.abs()).max(1.0)
}

#[test]
fn spectrum_matches_closed_form_energy() {
    for &p in &[-10.0, -2.5, -0.1, 0.0, 0.1, 1.0, 7.25, 10.0] {
        let ev = eigenvalues(p);
        let e = closed_form_energy(p);
        assert!(relative_close(ev[3], e, 1.0e-6), "max eigenvalue at p={p}: {} vs {e}", ev[3]);
        assert!(relative_close(ev[0], -e, 1.0e-6), "min eigenvalue at p={p}: {} vs {}", ev[0], -e);
    }
}

#[test]
fn eigenvalues_form_two_degenerate_pairs() {
    for &p in &[-4.0, 0.0, 0.5, 10.0] {
        let ev = eigenvalues(p);
        let scale = ev[3].abs().max(1.0);
        assert!((ev[3] - ev[2]).abs() <= 1.0e-9 * scale, "top pair at p={p}: {ev:?}");
        assert!((ev[1] - ev[0]).abs() <= 1.0e-9 * scale, "bottom pair at p={p}: {ev:?}");
    }
}

#[test]
fn rest_energy_gap_is_twice_m_c_squared() {
    let ev = eigenvalues(0.0);
    let e_positive = ev[3];
    let e_negative = ev[0];
    assert!(relative_close(e_positive, 8.9875517873681764e16, 1.0e-6));
    assert!(relative_close(e_negative, -8.9875517873681764e16, 1.0e-6));
    assert!(relative_close(e_positive - e_negative, 2.0 * M * C * C, 1.0e-6));
    assert!(relative_close(e_positive - e_negative, 1.7975103574736353e17, 1.0e-6));
}

#[test]
fn positive_branch_is_symmetric_in_momentum() {
    // 201 samples over [-10, 10]: e_positive(p) == e_positive(-p).
    let n = 201;
    let (p_min, p_max) = (-10.0, 10.0);
    let step = (p_max - p_min) / ((n - 1) as f64);
    let series: Vec<(f64, f64)> = (0..n)
        .map(|i| {
            let p = if i == n - 1 { p_max } else { p_min + i as f64 * step };
            (p, eigenvalues(p)[3])
        })
        .collect();
    assert_eq!(series.len(), 201);
    assert_eq!(series[0].0, p_min);
    assert_eq!(series[n - 1].0, p_max);
    for i in 1..n {
        assert!(series[i - 1].0 < series[i].0, "samples ascend in p");
    }
    for i in 0..n {
        let (p, e_pos) = series[i];
        let (p_mirror, e_mirror) = series[n - 1 - i];
        assert!((p + p_mirror).abs() <= 1.0e-9);
        assert!(relative_close(e_pos, e_mirror, 1.0e-6), "p={p}");
    }
}

#[test]
fn hermiticity_keeps_eigenvalues_real() {
    // The decomposition is Hermitian-aware: its eigenvalues are real by
    // construction, and reconstructing H from them leaves no imaginary
    // residue beyond rounding.
    for &p in &[-3.0, 0.0, 5.0] {
        let h = hamiltonian(p);
        let eig = SymmetricEigen::try_new(h, 1.0e-13, 0).unwrap();
        let rebuilt = eig.recompose();
        let scale = closed_form_energy(p);
        for i in 0..4 {
            for j in 0..4 {
                assert!((rebuilt[(i, j)].im - 0.0).abs() <= 1.0e-9 * scale);
                assert!((rebuilt[(i, j)] - h[(i, j)]).norm() <= 1.0e-6 * scale);
            }
        }
    }
}
