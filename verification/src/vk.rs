//! Plain-value model of the verifying-key metadata the permutation
//! argument reads: the ordered permutation-column list, each column's
//! kind and current-row query index, the circuit degree, and the
//! blinding-factor count.

use vstd::prelude::*;

verus! {

/// The kind of a circuit column participating in the permutation.
#[derive(Clone, Copy, PartialEq, Eq, Structural, Debug)]
pub enum ColumnKind {
    Advice,
    Fixed,
    Instance,
}

/// One permutation column: its kind and the precomputed index of its
/// current-row evaluation within the evaluation array of that kind.
#[derive(Clone, Copy, PartialEq, Eq, Structural, Debug)]
pub struct PermutationColumn {
    pub kind: ColumnKind,
    pub query_index: usize,
}

/// The verifying-key metadata consumed by the permutation argument.
pub struct VerifyingKeyMeta {
    /// The permutation columns, in the verifying key's declared order.
    pub columns: Vec<PermutationColumn>,
    /// The circuit's maximum constraint degree.
    pub degree: usize,
    /// Number of trailing blinded rows of each column.
    pub blinding_factors: usize,
}

impl VerifyingKeyMeta {
    /// A verifying key is usable when its degree leaves room for at
    /// least one column per chunk (`chunk_len = degree - 2 >= 1`) and
    /// the chunk-boundary rotation `-(blinding_factors + 1)` is
    /// representable.
    pub open spec fn wf(self) -> bool {
        &&& self.degree >= 3
        &&& self.blinding_factors + 1 <= i32::MAX
    }

    /// Maximum number of columns one running-product chunk may combine.
    pub open spec fn spec_chunk_len(self) -> int {
        self.degree - 2
    }

    /// Maximum number of columns one running-product chunk may combine.
    pub fn chunk_len(&self) -> (r: usize)
        requires
            self.wf(),
        ensures
            r == self.spec_chunk_len(),
    {
        self.degree - 2
    }
}

} // verus!
