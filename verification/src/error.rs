//! The store's error type.

use vstd::prelude::*;

verus! {

/// A failed database operation: an error the database itself reported, with
/// its code when it gave one and its message, or any other failure of the
/// driver, with its description.
#[derive(Debug)]
pub enum DbError {
    Database { code: Option<String>, message: String },
    Other(String),
}

/// Errors of the key store.
#[derive(Debug)]
pub enum ProxyError {
    /// A database operation failed.
    Database(DbError),
    /// Quota data needed for a decision is missing or inconsistent.
    QuotaDataMissing { reason: String },
    /// Any other failure, with its message.
    Other(String),
}

} // verus!
