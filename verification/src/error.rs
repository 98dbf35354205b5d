use vstd::prelude::*;

verus! {

/// Errors reported by the recipe store.
#[derive(Debug, Clone, Copy, PartialEq, Eq, Structural)]
pub enum LanceDbError {
    ConnectionFailed,
    TableNotFound,
    SearchFailed,
    SeedFailed,
    EmbeddingFailed,
    InvalidInput,
    Internal,
}

impl LanceDbError {
    /// The human-readable message of each error.
    pub open spec fn spec_message(self) -> Seq<char> {
        match self {
            LanceDbError::ConnectionFailed => "connection failed"@,
            LanceDbError::TableNotFound => "table not found"@,
            LanceDbError::SearchFailed => "search failed"@,
            LanceDbError::SeedFailed => "seed failed"@,
            LanceDbError::EmbeddingFailed => "embedding failed"@,
            LanceDbError::InvalidInput => "invalid input"@,
            LanceDbError::Internal => "internal error"@,
        }
    }

    /// Returns the message that describes this error.
    pub fn message(&self) -> (m: &'static str)
        ensures
            m@ == self.spec_message(),
    {
        match self {
            LanceDbError::ConnectionFailed => "connection failed",
            LanceDbError::TableNotFound => "table not found",
            LanceDbError::SearchFailed => "search failed",
            LanceDbError::SeedFailed => "seed failed",
            LanceDbError::EmbeddingFailed => "embedding failed",
            LanceDbError::InvalidInput => "invalid input",
            LanceDbError::Internal => "internal error",
        }
    }
}

} // verus!
