//! The error kinds of the ingestion and retrieval pipeline.
use vstd::prelude::*;

verus! {

/// What went wrong in one stage of an upload or a lookup. Each stage fails
/// fast with one of these; no stage retries.
#[derive(Debug)]
pub enum AppError {
    /// The upload stream failed, or grew past its ceiling, while it was read.
    ReadError(String),
    /// The bytes are not an image the codec can decode, or one with an empty side.
    DecodeError(String),
    /// The declared mime is not one of the supported image types.
    UnsupportedFormat(String),
    /// The storage engine could not be reached or refused the statement.
    PersistenceError(String),
    /// A lookup matched no record.
    NotFound,
    /// The server base address is missing or malformed.
    ConfigError(String),
}

/// How a statement against the storage engine failed, as reported by its driver.
#[derive(Debug)]
pub enum DbFailure {
    /// The query matched no row.
    RowNotFound,
    /// Any other failure: connectivity, a constraint violation, a decode of the row.
    Other(String),
}

impl AppError {
    /// The error that a failed storage statement becomes: a missing row is
    /// `NotFound`, anything else a `PersistenceError` carrying the driver's message.
    pub fn from_db_failure(f: DbFailure) -> (r: AppError)
        ensures
            (f is RowNotFound) ==> (r is NotFound),
            (f is Other) ==> (r is PersistenceError && r->PersistenceError_0@ == f->Other_0@),
    {
        match f {
            DbFailure::RowNotFound => AppError::NotFound,
            DbFailure::Other(m) => AppError::PersistenceError(m),
        }
    }

}

} // verus!
