use crate::post::ValidationError;
use vstd::prelude::*;
use vstd::string::StringExecFns;

verus! {

/// A failure of the store, with the cause as the store worded it.
#[derive(Debug, PartialEq, Eq)]
pub enum StorageError {
    /// No connection could be had from the pool.
    ConnectionAcquisitionFailed,
    /// A statement failed.
    QueryFailed(String),
    /// A transaction was rolled back.
    TransactionAborted(String),
}

impl StorageError {
    pub open spec fn message_text(&self) -> Seq<char> {
        match self {
            StorageError::ConnectionAcquisitionFailed => "Database error: no connection available"@,
            StorageError::QueryFailed(cause) => "Database error: "@ + cause@,
            StorageError::TransactionAborted(cause) => "Database error: transaction aborted: "@
                + cause@,
        }
    }

    /// The sentence shown to the caller: the cause behind a fixed opening.
    pub fn message(&self) -> (r: String)
        ensures
            r@ == self.message_text(),
    {
        match self {
            StorageError::ConnectionAcquisitionFailed => {
                "Database error: no connection available".to_string()
            },
            StorageError::QueryFailed(cause) => {
                "Database error: ".to_string().concat(cause.as_str())
            },
            StorageError::TransactionAborted(cause) => {
                "Database error: transaction aborted: ".to_string().concat(cause.as_str())
            },
        }
    }
}

impl Clone for StorageError {
    fn clone(&self) -> (r: Self)
        ensures
            r == *self,
    {
        match self {
            StorageError::ConnectionAcquisitionFailed => StorageError::ConnectionAcquisitionFailed,
            StorageError::QueryFailed(cause) => StorageError::QueryFailed(cause.clone()),
            StorageError::TransactionAborted(cause) => StorageError::TransactionAborted(
                cause.clone(),
            ),
        }
    }
}

/// What a use case can fail with. Absence of a post is no failure.
#[derive(Debug, PartialEq, Eq)]
pub enum ServiceError {
    /// The input was turned away before the store was touched.
    Validation(ValidationError),
    /// The store failed.
    Storage(StorageError),
}

impl ServiceError {
    pub open spec fn message_text(&self) -> Seq<char> {
        match self {
            ServiceError::Validation(e) => e.message_text(),
            ServiceError::Storage(e) => e.message_text(),
        }
    }

    /// The sentence of the error inside, unchanged.
    pub fn message(&self) -> (r: String)
        ensures
            r@ == self.message_text(),
    {
        match self {
            ServiceError::Validation(e) => e.message(),
            ServiceError::Storage(e) => e.message(),
        }
    }
}

} // verus!
