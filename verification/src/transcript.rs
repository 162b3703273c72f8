//! Sequential reader over the symbolic scalars of an inner proof transcript.
//!
//! The transcript is an ordered sequence of symbolic scalar handles, one
//! per value the inner prover wrote. Reads are inherently ordered: each
//! read returns the handle under the cursor and advances the cursor by
//! one. The reader never reorders or rewinds.

use vstd::prelude::*;

use crate::arith::ScalarHandle;

verus! {

/// A cursor over the symbolic scalars of one proof transcript.
pub struct Transcript {
    /// The transcript's scalar handles, in the order the prover wrote them.
    pub scalars: Vec<ScalarHandle>,
    /// Index of the next unread scalar.
    pub cursor: usize,
}

impl Transcript {
    /// The reader is well formed when its cursor lies within the transcript.
    pub open spec fn wf(self) -> bool {
        self.cursor <= self.scalars.len()
    }

    /// A fresh reader positioned at the start of the given scalars.
    pub fn new(scalars: Vec<ScalarHandle>) -> (r: Transcript)
        ensures
            r.wf(),
            r.scalars == scalars,
            r.cursor == 0,
    {
        Transcript { scalars, cursor: 0 }
    }

    /// How many scalars are still unread.
    pub fn remaining(&self) -> (r: usize)
        requires
            self.wf(),
        ensures
            r == self.scalars.len() - self.cursor,
    {
        self.scalars.len() - self.cursor
    }

    /// Read the next scalar and advance the cursor past it.
    pub fn read_scalar(&mut self) -> (r: ScalarHandle)
        requires
            old(self).cursor < old(self).scalars.len(),
        ensures
            final(self).scalars == old(self).scalars,
            final(self).cursor == old(self).cursor + 1,
            r == old(self).scalars[old(self).cursor as int],
            final(self).wf(),
    {
        let r = self.scalars[self.cursor];
        self.cursor = self.cursor + 1;
        r
    }
}

} // verus!
