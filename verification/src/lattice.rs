//! Runtime-checked variant of the labeling mechanism.
//!
//! Levels are runtime tags and the dominance relation is a registry, the
//! [`Lattice`], built once by the application and consulted at every
//! boundary crossing. A [`Labeled`] value pairs a payload with a level tag;
//! extraction and promotion take the lattice and a proof level and fail
//! with an explicit [`SecError`] when the proof level does not dominate the
//! value's level.
//!
//! Dominance edges are declared one ordered pair at a time; no transitive
//! closure is derived. Declaring a level also declares its reflexive edge,
//! so every declared level dominates itself. A pair with no declared edge
//! never dominates; a query naming an undeclared level is treated the same
//! way, as absence of proof.
use vstd::prelude::*;

verus! {

/// Failure of a boundary crossing. Both kinds are configuration errors:
/// the crossing fails immediately and deterministically, with no fallback.
#[derive(Debug, PartialEq, Eq, Structural, Clone, Copy)]
pub enum SecError {
    /// The proof level does not dominate the value's level: no such edge
    /// was ever declared.
    MissingDominance,
    /// A level named in the dominance query was never declared.
    UnknownLevel,
}

/// The level registry: the set of declared level tags and the declared
/// dominance edges between them.
pub struct Lattice {
    levels: Vec<u64>,
    edges: Vec<(u64, u64)>,
}

impl Lattice {
    /// Whether the level tag `l` has been declared.
    pub closed spec fn declared(self, l: u64) -> bool {
        self.levels@.contains(l)
    }

    /// Whether the edge "`a` dominates `b`" has been declared.
    pub closed spec fn edge_declared(self, a: u64, b: u64) -> bool {
        self.edges@.contains((a, b))
    }

    /// `a` dominates `b`: both levels are declared and so is the edge.
    /// A pair with no declared edge, or naming an undeclared level, does
    /// not dominate — never the reverse by default.
    pub open spec fn dominance(self, a: u64, b: u64) -> bool {
        self.declared(a) && self.declared(b) && self.edge_declared(a, b)
    }

    /// Well-formedness: every declared level dominates itself, and every
    /// declared edge joins declared levels. Established by `new` and
    /// preserved by the declaration methods.
    pub open spec fn wf(self) -> bool {
        &&& forall|l: u64| #[trigger] self.declared(l) ==> self.edge_declared(l, l)
        &&& forall|a: u64, b: u64| #[trigger] self.edge_declared(a, b)
            ==> self.declared(a) && self.declared(b)
    }

    /// The empty lattice: no levels, no edges.
    pub fn new() -> (r: Lattice)
        ensures
            r.wf(),
            forall|l: u64| !r.declared(l),
            forall|a: u64, b: u64| !r.edge_declared(a, b),
    {
        Lattice { levels: Vec::new(), edges: Vec::new() }
    }

    /// Declares the level `l`, together with its reflexive edge: every
    /// declared level must dominate itself. Declaring a level again is
    /// harmless.
    pub fn declare_level(&mut self, l: u64)
        requires
            old(self).wf(),
        ensures
            final(self).wf(),
            forall|x: u64| final(self).declared(x) <==> old(self).declared(x) || x == l,
            forall|a: u64, b: u64|
                final(self).edge_declared(a, b) <==> old(self).edge_declared(a, b) || (a == l
                    && b == l),
    {
        self.levels.push(l);
        self.edges.push((l, l));
        proof {
            lemma_push_contains::<u64>(old(self).levels@, self.levels@, l);
            lemma_push_contains::<(u64, u64)>(old(self).edges@, self.edges@, (l, l));
            assert forall|x: u64| #[trigger] self.declared(x) implies self.edge_declared(x, x) by {
                if old(self).declared(x) {
                    assert(old(self).edge_declared(x, x));
                }
            }
            assert forall|a2: u64, b2: u64| #[trigger] self.edge_declared(a2, b2) implies self
                .declared(a2) && self.declared(b2) by {
                if old(self).edge_declared(a2, b2) {
                    assert(old(self).declared(a2) && old(self).declared(b2));
                }
            }
        }
    }

    /// Declares the edge "`a` dominates `b`". Both levels must already be
    /// declared; otherwise nothing is recorded and the call fails with
    /// `UnknownLevel`.
    pub fn declare_dominance(&mut self, a: u64, b: u64) -> (r: Result<(), SecError>)
        requires
            old(self).wf(),
        ensures
            final(self).wf(),
            r is Ok <==> old(self).declared(a) && old(self).declared(b),
            r is Err ==> r == Err::<(), SecError>(SecError::UnknownLevel) && *final(self) == *old(
                self,
            ),
            r is Ok ==> forall|x: u64| final(self).declared(x) <==> old(self).declared(x),
            r is Ok ==> forall|x: u64, y: u64|
                final(self).edge_declared(x, y) <==> old(self).edge_declared(x, y) || (x == a && y
                    == b),
    {
        if self.is_declared(a) && self.is_declared(b) {
            self.edges.push((a, b));
            proof {
                lemma_push_contains::<(u64, u64)>(old(self).edges@, self.edges@, (a, b));
                assert forall|x: u64| #[trigger] self.declared(x) implies self.edge_declared(
                    x,
                    x,
                ) by {
                    assert(old(self).declared(x));
                    assert(old(self).edge_declared(x, x));
                }
                assert forall|x: u64, y: u64| #[trigger] self.edge_declared(x, y) implies self
                    .declared(x) && self.declared(y) by {
                    if old(self).edge_declared(x, y) {
                        assert(old(self).declared(x) && old(self).declared(y));
                    } else {
                        assert(old(self).declared(a) && old(self).declared(b));
                    }
                }
            }
            Ok(())
        } else {
            Err(SecError::UnknownLevel)
        }
    }

    /// Whether the level tag `l` has been declared.
    pub fn is_declared(&self, l: u64) -> (r: bool)
        ensures
            r == self.declared(l),
    {
        let mut i: usize = 0;
        while i < self.levels.len()
            invariant
                i <= self.levels.len(),
                forall|j: int| 0 <= j < i ==> self.levels@[j] != l,
            decreases self.levels.len() - i,
        {
            if self.levels[i] == l {
                return true;
            }
            i += 1;
        }
        false
    }

    /// Whether the edge "`a` dominates `b`" has been declared.
    fn has_edge(&self, a: u64, b: u64) -> (r: bool)
        ensures
            r == self.edge_declared(a, b),
    {
        let mut i: usize = 0;
        while i < self.edges.len()
            invariant
                i <= self.edges.len(),
                forall|j: int| 0 <= j < i ==> self.edges@[j] != (a, b),
            decreases self.edges.len() - i,
        {
            if self.edges[i].0 == a && self.edges[i].1 == b {
                return true;
            }
            i += 1;
        }
        false
    }

    /// The lookup at the heart of every crossing: does `a` dominate `b`?
    pub fn dominates(&self, a: u64, b: u64) -> (r: bool)
        ensures
            r == self.dominance(a, b),
    {
        self.is_declared(a) && self.is_declared(b) && self.has_edge(a, b)
    }
}

/// A payload bound immutably to one level tag: the runtime counterpart of
/// `Sec`. The level is fixed at construction; `map` and `and_then` keep it;
/// `reveal_to` and `lift` consult a [`Lattice`] and fail without a declared
/// dominance edge. There is no downgrade path: promotion is the only
/// level-changing operation and its precondition is exactly the dominance
/// check.
#[derive(Debug, PartialEq, Eq)]
pub struct Labeled<A> {
    level: u64,
    data: A,
}

impl<A> Labeled<A> {
    /// The level tag this value is classified at.
    pub closed spec fn level_spec(self) -> u64 {
        self.level
    }

    /// The payload carried by this value.
    pub closed spec fn data_spec(self) -> A {
        self.data
    }

    /// Wraps `data` at `level`. Any level is valid for construction.
    pub fn new(level: u64, data: A) -> (r: Self)
        ensures
            r.level_spec() == level,
            r.data_spec() == data,
    {
        Labeled { level, data }
    }

    /// The level tag, observable without any dominance proof; only the
    /// payload is protected.
    pub fn level(&self) -> (r: u64)
        ensures
            r == self.level_spec(),
    {
        self.level
    }

    /// Applies `f` to the payload exactly once, consuming this value and
    /// producing a new one at the same level.
    pub fn map<B, F>(self, f: F) -> (r: Labeled<B>) where
        F: FnOnce(A) -> B,

        requires
            f.requires((self.data_spec(),)),
        ensures
            r.level_spec() == self.level_spec(),
            f.ensures((self.data_spec(),), r.data_spec()),
    {
        let Labeled { level, data } = self;
        Labeled { level, data: f(data) }
    }

    /// Monadic bind: consumes this value, hands the raw payload to the
    /// continuation `f`, and returns `f`'s result directly. The caller must
    /// show that the continuation can only produce a value at the identical
    /// level, so no level crossing is possible here; no dominance check is
    /// involved.
    pub fn and_then<B, F>(self, f: F) -> (r: Labeled<B>) where
        F: FnOnce(A) -> Labeled<B>,

        requires
            f.requires((self.data_spec(),)),
            forall|x: A, y: Labeled<B>| f.ensures((x,), y) ==> y.level_spec() == self.level_spec(),
        ensures
            r.level_spec() == self.level_spec(),
            f.ensures((self.data_spec(),), r),
    {
        let Labeled { data, .. } = self;
        f(data)
    }

    /// Extracts the raw payload, consuming this value, provided the lattice
    /// declares that `proof_level` dominates the value's level. Succeeds if
    /// and only if that dominance holds; otherwise it fails immediately,
    /// with `UnknownLevel` when either level is undeclared and
    /// `MissingDominance` when the edge is missing.
    pub fn reveal_to(self, lattice: &Lattice, proof_level: u64) -> (r: Result<A, SecError>)
        ensures
            r is Ok <==> lattice.dominance(proof_level, self.level_spec()),
            lattice.dominance(proof_level, self.level_spec()) ==> r == Ok::<A, SecError>(
                self.data_spec(),
            ),
            !lattice.declared(proof_level) || !lattice.declared(self.level_spec()) ==> r == Err::<
                A,
                SecError,
            >(SecError::UnknownLevel),
            lattice.declared(proof_level) && lattice.declared(self.level_spec())
                && !lattice.edge_declared(proof_level, self.level_spec()) ==> r == Err::<
                A,
                SecError,
            >(SecError::MissingDominance),
    {
        let Labeled { level, data } = self;
        if !lattice.is_declared(proof_level) || !lattice.is_declared(level) {
            Err(SecError::UnknownLevel)
        } else if !lattice.has_edge(proof_level, level) {
            Err(SecError::MissingDominance)
        } else {
            Ok(data)
        }
    }

    /// Promotes the payload to `target_level`, consuming this value,
    /// provided the lattice declares that `target_level` dominates the
    /// value's level. Succeeds if and only if that dominance holds, with
    /// the same failures as `reveal_to`; on success the new value is at
    /// exactly `target_level` and carries the same payload.
    pub fn lift(self, lattice: &Lattice, target_level: u64) -> (r: Result<Labeled<A>, SecError>)
        ensures
            r is Ok <==> lattice.dominance(target_level, self.level_spec()),
            lattice.dominance(target_level, self.level_spec()) ==> r is Ok
                && r->Ok_0.level_spec() == target_level && r->Ok_0.data_spec() == self.data_spec(),
            !lattice.declared(target_level) || !lattice.declared(self.level_spec()) ==> r == Err::<
                Labeled<A>,
                SecError,
            >(SecError::UnknownLevel),
            lattice.declared(target_level) && lattice.declared(self.level_spec())
                && !lattice.edge_declared(target_level, self.level_spec()) ==> r == Err::<
                Labeled<A>,
                SecError,
            >(SecError::MissingDominance),
    {
        let Labeled { level, data } = self;
        if !lattice.is_declared(target_level) || !lattice.is_declared(level) {
            Err(SecError::UnknownLevel)
        } else if !lattice.has_edge(target_level, level) {
            Err(SecError::MissingDominance)
        } else {
            Ok(Labeled { level: target_level, data })
        }
    }
}

/// Reflexivity: in a well-formed lattice every declared level dominates
/// itself.
pub proof fn lemma_dominance_reflexive(lattice: Lattice, l: u64)
    requires
        lattice.wf(),
        lattice.declared(l),
    ensures
        lattice.dominance(l, l),
{
}

/// No implicit transitivity: declared dominance of `a` over `b` and of `b`
/// over `c` does not by itself make `a` dominate `c`; as long as the edge
/// from `a` to `c` is not itself declared, the chain grants nothing.
pub proof fn lemma_no_implicit_transitivity(lattice: Lattice, a: u64, b: u64, c: u64)
    requires
        lattice.dominance(a, b),
        lattice.dominance(b, c),
        !lattice.edge_declared(a, c),
    ensures
        !lattice.dominance(a, c),
{
}

/// Pushing onto a sequence adds exactly one membership: the pushed value.
proof fn lemma_push_contains<A>(s: Seq<A>, t: Seq<A>, v: A)
    requires
        t == s.push(v),
    ensures
        forall|x: A| #[trigger] t.contains(x) <==> s.contains(x) || x == v,
{
    assert forall|x: A| #[trigger] t.contains(x) implies s.contains(x) || x == v by {
        let i = choose|i: int| 0 <= i < t.len() && t[i] == x;
        if i < s.len() {
            assert(s[i] == x);
        }
    }
    assert forall|x: A| s.contains(x) || x == v implies #[trigger] t.contains(x) by {
        if s.contains(x) {
            let i = choose|i: int| 0 <= i < s.len() && s[i] == x;
            assert(t[i] == x);
        } else {
            assert(t[s.len() as int] == x);
        }
    }
}

} // verus!
