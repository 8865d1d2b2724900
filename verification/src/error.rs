//! The failures that header and record operations report.

use vstd::prelude::*;

use crate::schema::FieldType;

verus! {

/// The kind of name that a lookup was made for.
#[derive(Clone, Copy, Debug, PartialEq, Eq, Structural)]
pub enum Namespace {
    Contig,
    Sample,
    Filter,
    Info,
    Format,
}

/// Why an operation on a header or a record was refused.
#[derive(Clone, Copy, Debug, PartialEq, Eq, Structural)]
pub enum Error {
    /// The name or numeric id is not declared in the given namespace of the header.
    NotFound(Namespace),
    /// The id is already declared with another value type or cardinality.
    SchemaConflict,
    /// The values handed in are of another kind than the field is declared with.
    TypeMismatch { expected: FieldType, supplied: FieldType },
    /// The operation has no meaning for a field of this kind.
    UnsupportedOperation,
    /// The raw record is malformed.
    Decode,
}

} // verus!
