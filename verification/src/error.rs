//! Why a table could not be built.

use vstd::prelude::*;

verus! {

/// A fault in the dataset. Each one is fatal: no table is built. Rows are
/// counted from 0, the header row left out.
#[derive(Debug, Clone, Copy, PartialEq, Eq, Structural)]
pub enum BuildError {
    /// The row does not consist of exactly four text fields.
    MalformedRecord(usize),
    /// The member name derived from the row's three-letter code is not a
    /// valid member name.
    InvalidIdentifier(usize),
    /// The row, given first, derives the same member name as the earlier
    /// row given second.
    IdentifierCollision(usize, usize),
}

impl BuildError {
    /// The row at which the fault was found.
    pub open spec fn spec_row(self) -> usize {
        match self {
            BuildError::MalformedRecord(row) => row,
            BuildError::InvalidIdentifier(row) => row,
            BuildError::IdentifierCollision(row, _) => row,
        }
    }

    /// The row at which the fault was found.
    #[verifier::when_used_as_spec(spec_row)]
    pub fn row(self) -> (r: usize)
        ensures
            r == self.spec_row(),
    {
        match self {
            BuildError::MalformedRecord(row) => row,
            BuildError::InvalidIdentifier(row) => row,
            BuildError::IdentifierCollision(row, _) => row,
        }
    }
}

} // verus!
