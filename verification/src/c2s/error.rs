//! What can go wrong when a record of the record dialect is read or written.
use vstd::prelude::*;

verus! {

/// The fields of a record that a failure can name.
#[derive(Debug, Clone, Copy, PartialEq, Eq, Structural)]
pub enum Field {
    Tag,
    Measure,
    Offset,
    Cell,
    Width,
    Duration,
    EndCell,
    EndWidth,
    Param1,
    Param2,
}

/// The failures of the record dialect.
#[derive(Debug, Clone, Copy, PartialEq, Eq, Structural)]
pub enum C2sError {
    /// The record has fewer fields than every record needs.
    MissingFields { found: usize },
    /// The named field is there but cannot be read as what it has to be.
    InvalidField { field: Field },
    /// A wrapper record does not have the field count of a wrapper.
    StructuralMismatch { found: usize },
    /// The kind has no tag to be written with.
    InvalidKind,
}

} // verus!
