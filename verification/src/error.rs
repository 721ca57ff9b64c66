//! The failure of a query that has no placeholder to fall back on.

use vstd::prelude::*;

verus! {

/// The operating system's own account of why a query failed.
#[derive(Clone, Debug, PartialEq, Eq)]
pub struct QueryError {
    /// The system's error code.
    pub code: i32,
    /// The system's message for it.
    pub message: String,
}

/// A line or its failure, the line as the characters it holds.
pub open spec fn text_of(line: Result<String, QueryError>) -> Result<Seq<char>, QueryError> {
    match line {
        Ok(text) => Ok(text@),
        Err(error) => Err(error),
    }
}

} // verus!
