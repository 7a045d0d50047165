//! Security levels classify how sensitive a piece of data is.
//!
//! A level is a zero-sized marker type implementing [`SecurityLevel`]. The
//! trait's `LessThan` parameter encodes the dominance relation at the type
//! level: `impl SecurityLevel<A> for B` declares that `B` dominates `A`
//! (data at level `A` may safely be treated as data at level `B`).
//!
//! Dominance edges are declared one pair at a time; no transitive closure is
//! derived. Each level must declare that it dominates itself.
//!
//! Two example levels are provided, `Low` and `High`; applications may add
//! their own (say `User`, `Moderator`, `Administrator`) by implementing the
//! trait for further marker types.
use vstd::prelude::*;

verus! {

/// Marker trait for security levels. `SecurityLevel<LessThan>` states that
/// the implementing level dominates `LessThan`; the default `LessThan = Self`
/// makes a bare `SecurityLevel` bound mean "dominates itself", so every
/// usable level is reflexively self-dominating.
pub trait SecurityLevel<LessThan = Self> {
}

/// The low security level.
#[derive(Debug, PartialEq, Eq, Clone, Copy)]
pub struct Low;

/// The high security level.
#[derive(Debug, PartialEq, Eq, Clone, Copy)]
pub struct High;

/// `Low` dominates `Low`.
impl SecurityLevel for Low {
}

/// `High` dominates `Low`.
impl SecurityLevel<Low> for High {
}

/// `High` dominates `High`.
impl SecurityLevel for High {
}

} // verus!
