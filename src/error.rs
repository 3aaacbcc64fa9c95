use vstd::prelude::*;

verus! {

/// Why a conflict clause, or the statement it decorates, could not be composed.
#[derive(Debug, Clone, Copy, PartialEq, Eq, Structural)]
pub enum CompositionError {
    /// A table, column or constraint name is not a plain SQL identifier.
    InvalidIdentifier,
    /// A column target lists no column.
    EmptyTarget,
    /// An update action assigns no column.
    EmptyAssignments,
    /// The same column occurs twice in a target or in an assignment list.
    DuplicateColumn,
    /// Columns of two different tables were mixed in one target or action.
    MixedTables,
    /// A row source names a column of another table than the statement's.
    ForeignColumn,
}

} // verus!
