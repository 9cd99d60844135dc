//! Failures reported by the database layer, as the services tell them apart.

use vstd::prelude::*;

verus! {

/// A failed database operation: no such record, a unique or check
/// constraint that the write broke (with the database's message), or any
/// other failure (with its text).
#[derive(Debug, Clone, PartialEq, Eq)]
pub enum DbError {
    NotFound,
    UniqueViolation(String),
    CheckViolation(String),
    Other(String),
}

/// The connection pool could not be built.
#[derive(Debug, Clone, PartialEq, Eq)]
pub enum PoolError {
    Build(String),
}

/// The text that `Display` shows for a pool error.
pub open spec fn pool_error_message(e: PoolError) -> Seq<char> {
    match e {
        PoolError::Build(m) => "failed to build pool: "@ + m@,
    }
}

impl PoolError {
    /// The error's message.
    pub fn to_string(&self) -> (s: String)
        ensures
            s@ == pool_error_message(*self),
    {
        match self {
            PoolError::Build(m) => "failed to build pool: ".to_string().concat(m.as_str()),
        }
    }
}

} // verus!
