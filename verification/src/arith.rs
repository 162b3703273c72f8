//! Opaque handles into the shared symbolic expression graph.
//!
//! Scalars and curve points produced while verifying an inner proof are
//! never computed here; they are nodes of an external expression arena.
//! A handle identifies one immutable node, and copying a handle shares
//! the node rather than duplicating it.

use vstd::prelude::*;

verus! {

/// Handle of one symbolic scalar node.
#[derive(Clone, Copy, PartialEq, Eq, Structural, Debug)]
pub struct ScalarHandle {
    /// Identifier of the node within the expression arena.
    pub node: u64,
}

/// Handle of one symbolic curve-point node (a polynomial commitment).
#[derive(Clone, Copy, PartialEq, Eq, Structural, Debug)]
pub struct PointHandle {
    /// Identifier of the node within the expression arena.
    pub node: u64,
}

} // verus!
