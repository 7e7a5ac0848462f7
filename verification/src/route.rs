//! Route identifiers.

use vstd::prelude::*;

verus! {

/// An opaque identifier of a navigable screen. Two identifiers name the same
/// screen exactly when their numbers are equal.
#[derive(Clone, Copy, Debug, PartialEq, Eq, Structural, Hash)]
pub struct RouteId(pub u64);

} // verus!
