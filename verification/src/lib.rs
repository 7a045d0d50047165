//! A labeled-value library enforcing an information-flow security lattice.
//!
//! Every value is wrapped together with a security level, and the raw value
//! can only be extracted, or moved to another level, on proof that the
//! requesting level dominates the value's level.
//!
//! Two variants of the mechanism are provided:
//! - [`Sec`], which encodes levels as marker types and dominance as trait
//!   impls, so that an unauthorized crossing is a build failure;
//! - [`lattice`], which encodes levels as runtime tags and the dominance
//!   relation as a registry consulted at each crossing, failing with an
//!   explicit error on a missing edge.
use vstd::prelude::*;

pub mod lattice;
pub mod security_level;

use core::marker::PhantomData;
use crate::security_level::SecurityLevel;

verus! {

/// A payload bound immutably to one security level `S`.
///
/// `map` and `and_then` transform the payload without changing the level;
/// `reveal_to` and `lift` cross the security boundary and demand a level that
/// dominates `S`, via a `SecurityLevel<S>` bound that only holds for levels
/// with a declared dominance edge over `S`.
#[derive(Debug, PartialEq)]
pub struct Sec<S, A> where S: SecurityLevel {
    security_level: PhantomData<S>,
    data: A,
}

impl<S, A> Sec<S, A> where S: SecurityLevel {
    /// The payload carried by this value.
    pub closed spec fn data_spec(self) -> A {
        self.data
    }

    /// Wraps `data` at level `S`. Any level is valid for construction.
    pub fn new(data: A) -> (r: Self)
        ensures
            r.data_spec() == data,
    {
        Sec { data, security_level: PhantomData }
    }

    /// Applies `f` to the payload exactly once, consuming this value and
    /// producing a new one at the same level `S`.
    pub fn map<B, F>(self, f: F) -> (r: Sec<S, B>) where
        F: FnOnce(A) -> B,

        requires
            f.requires((self.data_spec(),)),
        ensures
            f.ensures((self.data_spec(),), r.data_spec()),
    {
        let Sec { data, security_level } = self;
        Sec { data: f(data), security_level }
    }

    /// Monadic bind: consumes this value, hands the raw payload to the
    /// continuation `f`, and returns `f`'s result directly. The continuation
    /// produces a value at the identical level `S` by construction; no
    /// dominance check is involved, and no level crossing is possible here.
    pub fn and_then<B, F>(self, f: F) -> (r: Sec<S, B>) where
        F: FnOnce(A) -> Sec<S, B>,

        requires
            f.requires((self.data_spec(),)),
        ensures
            f.ensures((self.data_spec(),), r),
    {
        let Sec { data, .. } = self;
        f(data)
    }

    /// Extracts the raw payload, consuming this value. The caller must
    /// present a level `S2` that dominates `S`: the `SecurityLevel<S>` bound
    /// is the dominance proof, so an unauthorized extraction fails to build.
    pub fn reveal_to<S2>(self, _proof: S2) -> (r: A) where
        S2: SecurityLevel<S> + SecurityLevel,

        ensures
            r == self.data_spec(),
    {
        self.data
    }

    /// Promotes the payload to level `S2`, consuming this value. The
    /// `SecurityLevel<S>` bound demands that `S2` dominates `S`, so a
    /// downgrade fails to build.
    pub fn lift<S2>(self, _proof: S2) -> (r: Sec<S2, A>) where
        S2: SecurityLevel<S> + SecurityLevel,

        ensures
            r.data_spec() == self.data_spec(),
    {
        let Sec { data, .. } = self;
        Sec::new(data)
    }
}

/// Wrapping a raw value is `Sec::new`; the level is chosen by inference.
impl<S, A> From<A> for Sec<S, A> where S: SecurityLevel {
    fn from(data: A) -> (r: Sec<S, A>) {
        Sec::new(data)
    }
}

impl<S, A> vstd::std_specs::convert::FromSpecImpl<A> for Sec<S, A> where S: SecurityLevel {
    open spec fn obeys_from_spec() -> bool {
        true
    }

    closed spec fn from_spec(data: A) -> Sec<S, A> {
        Sec { data, security_level: PhantomData }
    }
}

} // verus!
