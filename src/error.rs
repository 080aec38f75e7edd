use vstd::prelude::*;

verus! {

/// Why a statement was not carried out.
#[derive(Debug, Clone, PartialEq)]
pub enum DbError {
    /// The text is not valid SQL; holds the parser's diagnostic.
    ParseError(String),
    /// The input did not hold exactly one statement; holds how many it held.
    UnsupportedInput(usize),
    /// The statement does not have the shape its kind needs.
    MalformedStatement,
    /// A table of that name exists already.
    DuplicateTable(String),
    /// No table of that name exists.
    UnknownTable(String),
    /// Some target column of an insert is not in the table's schema.
    UnknownColumn,
    /// A value tuple's length differs from the number of target columns.
    ArityMismatch { values: usize, columns: usize },
    /// A value tuple collides with an existing row on the named unique column.
    UniqueConstraintViolation(String),
    /// The statement kind is not handled.
    NotImplemented,
}

} // verus!
