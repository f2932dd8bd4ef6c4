//! Pauli-exclusion bookkeeping for electron configurations.
//!
//! An `Atom` collects electrons, refusing any whose four quantum numbers are
//! already occupied (the exclusion principle) or invalid, and reports how
//! many electrons occupy each `(n, l)` subshell.

use vstd::prelude::*;
use vstd::string::StringExecFns;

verus! {

/// One electron, identified by its four quantum numbers: principal `n`,
/// azimuthal `l`, magnetic `ml` and spin `ms`.
#[derive(Clone, Copy, Debug, PartialEq, Eq, Hash, Structural)]
pub struct Electron {
    pub n: u32,
    pub l: u32,
    pub ml: i32,
    pub ms: i32,
}

/// Quantum numbers an atom accepts: `l < n`, `|ml| <= l` and `|ms| <= 1`.
pub open spec fn valid_quantum_numbers(e: Electron) -> bool {
    &&& (e.l as int) < (e.n as int)
    &&& -(e.l as int) <= (e.ml as int) <= (e.l as int)
    &&& -1 <= (e.ms as int) <= 1
}

/// The error reported when the added electron's state is already occupied.
pub open spec fn occupied_message() -> Seq<char> {
    "Electron state already occupied. Pauli exclusion principle violated!"@
}

/// The error reported when the added electron's quantum numbers are invalid.
pub open spec fn invalid_message() -> Seq<char> {
    "Invalid quantum numbers"@
}

/// Number of electrons of `s` occupying shell `n`, subshell `l`.
pub open spec fn count_in_subshell(s: Seq<Electron>, n: u32, l: u32) -> nat
    decreases s.len(),
{
    if s.len() == 0 {
        0
    } else {
        count_in_subshell(s.drop_last(), n, l) + if s.last().n == n && s.last().l == l {
            1nat
        } else {
            0nat
        }
    }
}

/// Some entry of `config` carries the subshell key `(n, l)`.
pub open spec fn subshell_listed(config: Seq<((u32, u32), u32)>, n: u32, l: u32) -> bool {
    exists|k: int| 0 <= k < config.len() && (#[trigger] config[k]).0 == (n, l)
}

/// No two electrons of `s` share all four quantum numbers, and every
/// electron's quantum numbers are valid.  `Atom::new` establishes this and
/// `Atom::add_electron` preserves it.
pub open spec fn wf_atom(s: Seq<Electron>) -> bool {
    &&& forall|i: int, j: int| 0 <= i < j < s.len() ==> s[i] != s[j]
    &&& forall|i: int| 0 <= i < s.len() ==> valid_quantum_numbers(#[trigger] s[i])
}

impl Electron {
    pub fn new(n: u32, l: u32, ml: i32, ms: i32) -> (e: Electron)
        ensures
            e == (Electron { n, l, ml, ms }),
    {
        Electron { n, l, ml, ms }
    }
}

/// An atom, holding the electrons added so far in insertion order.
pub struct Atom {
    electrons: Vec<Electron>,
}

impl View for Atom {
    type V = Seq<Electron>;

    closed spec fn view(&self) -> Seq<Electron> {
        self.electrons@
    }
}

impl Atom {
    pub fn new() -> (a: Atom)
        ensures
            a@ == Seq::<Electron>::empty(),
            wf_atom(a@),
    {
        Atom { electrons: Vec::new() }
    }

    /// Whether an electron with exactly these quantum numbers is present.
    pub fn occupies(&self, e: Electron) -> (r: bool)
        ensures
            r == self@.contains(e),
    {
        let mut i: usize = 0;
        while i < self.electrons.len()
            invariant
                i <= self.electrons.len(),
                forall|k: int| 0 <= k < i as int ==> self@[k] != e,
            decreases self.electrons.len() - i,
        {
            if self.electrons[i] == e {
                return true;
            }
            i = i + 1;
        }
        false
    }

    /// Adds an electron, unless its state is already occupied (the Pauli
    /// exclusion principle) or its quantum numbers are invalid.
    pub fn add_electron(&mut self, electron: Electron) -> (r: Result<(), String>)
        ensures
            r is Ok <==> !old(self)@.contains(electron) && valid_quantum_numbers(electron),
            r is Ok ==> final(self)@ == old(self)@.push(electron),
            r is Err ==> final(self)@ == old(self)@,
            old(self)@.contains(electron) ==> (r matches Err(m) && m@ == occupied_message()),
            !old(self)@.contains(electron) && !valid_quantum_numbers(electron) ==> (r matches Err(
                m,
            ) && m@ == invalid_message()),
            wf_atom(old(self)@) ==> wf_atom(final(self)@),
    {
        if self.occupies(electron) {
            return Err(String::from_str(
                "Electron state already occupied. Pauli exclusion principle violated!",
            ));
        }
        let ml: i64 = electron.ml as i64;
        let ms: i64 = electron.ms as i64;
        if electron.l >= electron.n || ml > electron.l as i64 || ml < -(electron.l as i64) || ms > 1
            || ms < -1 {
            return Err(String::from_str("Invalid quantum numbers"));
        }
        self.electrons.push(electron);
        Ok(())
    }

    /// The number of electrons per occupied `(n, l)` subshell: a subshell
    /// is listed exactly when some electron occupies it, exactly once, with
    /// its exact electron count.
    pub fn electron_configuration(&self) -> (config: Vec<((u32, u32), u32)>)
        requires
            self@.len() <= u32::MAX,
        ensures
            forall|k: int|
                0 <= k < config@.len() ==> #[trigger] config@[k].1 == count_in_subshell(
                    self@,
                    config@[k].0.0,
                    config@[k].0.1,
                ),
            forall|k: int| 0 <= k < config@.len() ==> #[trigger] config@[k].1 >= 1,
            forall|k1: int, k2: int|
                0 <= k1 < k2 < config@.len() ==> config@[k1].0 != config@[k2].0,
            forall|i: int|
                0 <= i < self@.len() ==> subshell_listed(
                    config@,
                    (#[trigger] self@[i]).n,
                    self@[i].l,
                ),
    {
        let mut config: Vec<((u32, u32), u32)> = Vec::new();
        let mut i: usize = 0;
        proof {
            lemma_config_inv_empty(self@);
            assert(config@ =~= Seq::<((u32, u32), u32)>::empty());
        }
        while i < self.electrons.len()
            invariant
                self@.len() <= u32::MAX,
                i <= self@.len(),
                config_inv(self@, config@, i as int),
                forall|j: int|
                    0 <= j < i as int ==> subshell_listed(
                        config@,
                        (#[trigger] self@[j]).n,
                        self@[j].l,
                    ),
            decreases self@.len() - i,
        {
            let e = self.electrons[i];
            let mut k: usize = 0;
            let mut found: bool = false;
            while k < config.len() && !found
                invariant
                    k <= config@.len(),
                    !found ==> forall|k0: int| 0 <= k0 < k as int ==> config@[k0].0 != (e.n, e.l),
                    found ==> k < config@.len() && config@[k as int].0 == (e.n, e.l),
                decreases config@.len() - k, (if found { 0int } else { 1int }),
            {
                if config[k].0.0 == e.n && config[k].0.1 == e.l {
                    found = true;
                } else {
                    k = k + 1;
                }
            }
            let ghost prior = config@;
            let ghost hit: int = if found {
                k as int
            } else {
                prior.len() as int
            };
            if found {
                proof {
                    lemma_config_inv_bounds(self@, config@, i as int, k as int);
                }
                let (key, cnt) = config[k];
                config.set(k, (key, cnt + 1));
                proof {
                    lemma_config_inv_found(self@, prior, config@, i as int, k as int);
                }
            } else {
                proof {
                    assert forall|j: int|
                        0 <= j < self@.take(i as int).len() implies !((#[trigger] self@.take(
                        i as int,
                    )[j]).n == e.n && self@.take(i as int)[j].l == e.l) by {
                        assert(self@.take(i as int)[j] == self@[j]);
                        if (self@[j]).n == e.n && self@[j].l == e.l {
                            assert(subshell_listed(config@, (self@[j]).n, self@[j].l));
                            let w = choose|k0: int|
                                0 <= k0 < config@.len() && (#[trigger] config@[k0]).0 == (
                                (self@[j]).n,
                                self@[j].l,
                                );
                            assert(config@[w].0 != (e.n, e.l));
                        }
                    }
                    lemma_count_zero(self@.take(i as int), e.n, e.l);
                }
                config.push(((e.n, e.l), 1));
                proof {
                    lemma_config_inv_push(self@, prior, config@, i as int);
                }
            }
            proof {
                assert(config@[hit].0 == (e.n, e.l));
                assert forall|j: int| 0 <= j < i as int + 1 implies subshell_listed(
                    config@,
                    (#[trigger] self@[j]).n,
                    self@[j].l,
                ) by {
                    if j == i as int {
                        assert(config@[hit].0 == ((self@[j]).n, self@[j].l));
                    } else {
                        assert(subshell_listed(prior, (self@[j]).n, self@[j].l));
                        let w = choose|k0: int|
                            0 <= k0 < prior.len() && (#[trigger] prior[k0]).0 == (
                            (self@[j]).n,
                            self@[j].l,
                            );
                        assert(config@[w].0 == ((self@[j]).n, self@[j].l));
                    }
                }
            }
            i = i + 1;
        }
        proof {
            lemma_config_complete(self@, config@);
        }
        config
    }
}

/// The invariant the configuration builder keeps after consuming the first
/// `i` electrons of `s`: counts are exact over that prefix, at least one
/// and at most `i`, and keys are distinct.  The builder's loop separately
/// keeps that every consumed electron's subshell is listed.
#[verifier::opaque]
spec fn config_inv(s: Seq<Electron>, config: Seq<((u32, u32), u32)>, i: int) -> bool {
    &&& forall|k: int|
        0 <= k < config.len() ==> #[trigger] config[k].1 == count_in_subshell(
            s.take(i),
            config[k].0.0,
            config[k].0.1,
        )
    &&& forall|k: int| 0 <= k < config.len() ==> 1 <= #[trigger] config[k].1 <= i
    &&& forall|k1: int, k2: int| 0 <= k1 < k2 < config.len() ==> config[k1].0 != config[k2].0
}

/// An empty configuration satisfies the invariant before any electron is
/// consumed.
proof fn lemma_config_inv_empty(s: Seq<Electron>)
    ensures
        config_inv(s, Seq::<((u32, u32), u32)>::empty(), 0),
{
    reveal(config_inv);
}

/// Count bounds the invariant gives one entry.
proof fn lemma_config_inv_bounds(s: Seq<Electron>, config: Seq<((u32, u32), u32)>, i: int, k: int)
    requires
        config_inv(s, config, i),
        0 <= k < config.len(),
    ensures
        1 <= config[k].1 <= i,
{
    reveal(config_inv);
}

/// Consuming electron `i` whose subshell is already listed at `hit`, and
/// raising that count by one, preserves the invariant.
proof fn lemma_config_inv_found(
    s: Seq<Electron>,
    prior: Seq<((u32, u32), u32)>,
    config: Seq<((u32, u32), u32)>,
    i: int,
    hit: int,
)
    requires
        config_inv(s, prior, i),
        0 <= i < s.len(),
        0 <= hit < prior.len(),
        prior[hit].0 == ((s[i]).n, s[i].l),
        config.len() == prior.len(),
        config[hit].0 == prior[hit].0,
        config[hit].1 == prior[hit].1 + 1,
        forall|k: int| 0 <= k < config.len() && k != hit ==> config[k] == prior[k],
    ensures
        config_inv(s, config, i + 1),
{
    reveal(config_inv);
    assert forall|k: int| 0 <= k < config.len() implies #[trigger] config[k].1
        == count_in_subshell(s.take(i + 1), config[k].0.0, config[k].0.1) by {
        lemma_count_step(s, i, config[k].0.0, config[k].0.1);
        if k != hit {
            assert(config[k] == prior[k]);
            if k < hit {
                assert(prior[k].0 != prior[hit].0);
            } else {
                assert(prior[hit].0 != prior[k].0);
            }
        }
    }
}

/// Consuming electron `i` whose subshell is not yet listed, and appending
/// that subshell with count one, preserves the invariant.
proof fn lemma_config_inv_push(
    s: Seq<Electron>,
    prior: Seq<((u32, u32), u32)>,
    config: Seq<((u32, u32), u32)>,
    i: int,
)
    requires
        config_inv(s, prior, i),
        0 <= i < s.len(),
        count_in_subshell(s.take(i), (s[i]).n, s[i].l) == 0,
        forall|k: int| 0 <= k < prior.len() ==> (#[trigger] prior[k]).0 != ((s[i]).n, s[i].l),
        config.len() == prior.len() + 1,
        config[prior.len() as int] == (((s[i]).n, s[i].l), 1u32),
        forall|k: int| 0 <= k < prior.len() ==> #[trigger] config[k] == prior[k],
    ensures
        config_inv(s, config, i + 1),
{
    reveal(config_inv);
    let hit = prior.len() as int;
    assert forall|k: int| 0 <= k < config.len() implies #[trigger] config[k].1
        == count_in_subshell(s.take(i + 1), config[k].0.0, config[k].0.1) by {
        lemma_count_step(s, i, config[k].0.0, config[k].0.1);
        if k < hit {
            assert(config[k] == prior[k]);
            assert(prior[k].0 != ((s[i]).n, s[i].l));
        }
    }
}

/// After all electrons are consumed the invariant yields the public
/// contract of `electron_configuration`.
proof fn lemma_config_complete(s: Seq<Electron>, config: Seq<((u32, u32), u32)>)
    requires
        config_inv(s, config, s.len() as int),
    ensures
        forall|k: int|
            0 <= k < config.len() ==> #[trigger] config[k].1 == count_in_subshell(
                s,
                config[k].0.0,
                config[k].0.1,
            ),
        forall|k: int| 0 <= k < config.len() ==> #[trigger] config[k].1 >= 1,
        forall|k1: int, k2: int| 0 <= k1 < k2 < config.len() ==> config[k1].0 != config[k2].0,
{
    reveal(config_inv);
    assert(s.take(s.len() as int) =~= s);
}

/// A subshell no electron of `s` occupies has count zero.
proof fn lemma_count_zero(s: Seq<Electron>, n: u32, l: u32)
    requires
        forall|j: int| 0 <= j < s.len() ==> !((#[trigger] s[j]).n == n && s[j].l == l),
    ensures
        count_in_subshell(s, n, l) == 0,
    decreases s.len(),
{
    if s.len() > 0 {
        assert(s.last() == s[s.len() - 1]);
        assert forall|j: int|
            0 <= j < s.drop_last().len() implies !((#[trigger] s.drop_last()[j]).n == n
            && s.drop_last()[j].l == l) by {
            assert(s.drop_last()[j] == s[j]);
        }
        lemma_count_zero(s.drop_last(), n, l);
    }
}

/// Extending a prefix by one electron raises the count of that electron's
/// subshell by one and leaves every other subshell count unchanged.
proof fn lemma_count_step(s: Seq<Electron>, i: int, n: u32, l: u32)
    requires
        0 <= i < s.len(),
    ensures
        count_in_subshell(s.take(i + 1), n, l) == count_in_subshell(s.take(i), n, l) + if s[i].n
            == n && s[i].l == l {
            1int
        } else {
            0int
        },
{
    assert(s.take(i + 1).drop_last() =~= s.take(i));
    assert(s.take(i + 1).last() == s[i]);
}

} // verus!
