use dirac_solver::pauli::Atom;
use dirac_solver::pauli::Electron;

const OCCUPIED: &str = "Electron state already occupied. Pauli exclusion principle violated!";
const INVALID: &str = "Invalid quantum numbers";

#[test]
fn electron_new_keeps_quantum_numbers() {
    let e = Electron::new(2, 1, -1, 1);
    assert_eq!(e.n, 2);
    assert_eq!(e.l, 1);
    assert_eq!(e.ml, -1);
    assert_eq!(e.ms, 1);
}

#[test]
fn fills_1s_orbital_with_opposite_spins() {
    let mut atom = Atom::new();
    assert!(atom.add_electron(Electron::new(1, 0, 0, -1)).is_ok());
    assert!(atom.add_electron(Electron::new(1, 0, 0, 1)).is_ok());
}

#[test]
fn rejects_doubly_occupied_state() {
    let mut atom = Atom::new();
    assert!(atom.add_electron(Electron::new(1, 0, 0, -1)).is_ok());
    assert!(atom.add_electron(Electron::new(1, 0, 0, 1)).is_ok());
    let third = atom.add_electron(Electron::new(1, 0, 0, -1));
    assert_eq!(third, Err(OCCUPIED.to_string()));
}

#[test]
fn rejects_azimuthal_not_below_principal() {
    let mut atom = Atom::new();
    let r = atom.add_electron(Electron::new(1, 1, 0, 1));
    assert_eq!(r, Err(INVALID.to_string()));
}

#[test]
fn rejects_magnetic_outside_azimuthal_range() {
    let mut atom = Atom::new();
    let r = atom.add_electron(Electron::new(2, 1, 2, 1));
    assert_eq!(r, Err(INVALID.to_string()));
    let r2 = atom.add_electron(Electron::new(2, 1, -2, 1));
    assert_eq!(r2, Err(INVALID.to_string()));
}

#[test]
fn rejects_spin_outside_range() {
    let mut atom = Atom::new();
    let r = atom.add_electron(Electron::new(1, 0, 0, 2));
    assert_eq!(r, Err(INVALID.to_string()));
    let r2 = atom.add_electron(Electron::new(1, 0, 0, -2));
    assert_eq!(r2, Err(INVALID.to_string()));
}

#[test]
fn occupied_check_runs_before_validity_check() {
    let mut atom = Atom::new();
    // An invalid electron is rejected for its quantum numbers ...
    assert_eq!(atom.add_electron(Electron::new(1, 1, 0, 1)), Err(INVALID.to_string()));
    // ... so it is never stored, and a second attempt fails the same way.
    assert_eq!(atom.add_electron(Electron::new(1, 1, 0, 1)), Err(INVALID.to_string()));
}

#[test]
fn configuration_counts_full_shells() {
    let mut atom = Atom::new();
    // 1s
    assert!(atom.add_electron(Electron::new(1, 0, 0, -1)).is_ok());
    assert!(atom.add_electron(Electron::new(1, 0, 0, 1)).is_ok());
    // 2s
    assert!(atom.add_electron(Electron::new(2, 0, 0, -1)).is_ok());
    assert!(atom.add_electron(Electron::new(2, 0, 0, 1)).is_ok());
    // 2p
    for ml in -1..=1 {
        assert!(atom.add_electron(Electron::new(2, 1, ml, -1)).is_ok());
        assert!(atom.add_electron(Electron::new(2, 1, ml, 1)).is_ok());
    }
    let config = atom.electron_configuration();
    assert_eq!(config.len(), 3);
    // Subshells are listed in order of first occupation.
    assert_eq!(config[0], ((1, 0), 2));
    assert_eq!(config[1], ((2, 0), 2));
    assert_eq!(config[2], ((2, 1), 6));
}

#[test]
fn configuration_of_empty_atom_is_empty() {
    let atom = Atom::new();
    assert!(atom.electron_configuration().is_empty());
}

#[test]
fn occupies_reports_presence() {
    let mut atom = Atom::new();
    let e = Electron::new(3, 2, -2, -1);
    assert!(!atom.occupies(e));
    assert!(atom.add_electron(e).is_ok());
    assert!(atom.occupies(e));
    assert!(!atom.occupies(Electron::new(3, 2, -2, 1)));
}
