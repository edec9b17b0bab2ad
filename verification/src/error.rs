use diesel::result::{DatabaseErrorKind, Error};
use vstd::prelude::*;

verus! {

/// Why an operation on the store did not go through.
#[derive(Debug, Clone, Copy, PartialEq, Eq, Structural)]
pub enum RepoError {
    /// The id names no row.
    NotFound,
    /// A row with the same key is already there.
    Conflict,
    /// The row refers to a row that is not there.
    ConstraintViolation,
    /// No connection to the store could be had.
    PoolExhausted,
    /// A statement failed in the middle of a transaction, which was rolled back.
    TransactionFailure,
}

impl RepoError {
    /// The error in words, as a response carries it.
    pub open spec fn description(self) -> Seq<char> {
        match self {
            RepoError::NotFound => "Record not found"@,
            RepoError::Conflict => "UNIQUE constraint failed"@,
            RepoError::ConstraintViolation => "FOREIGN KEY constraint failed"@,
            RepoError::PoolExhausted => "timed out waiting for connection"@,
            RepoError::TransactionFailure => "transaction failed and was rolled back"@,
        }
    }

    /// The error in words.
    pub fn describe(&self) -> (text: String)
        ensures
            text@ == self.description(),
    {
        match self {
            RepoError::NotFound => "Record not found".to_owned(),
            RepoError::Conflict => "UNIQUE constraint failed".to_owned(),
            RepoError::ConstraintViolation => "FOREIGN KEY constraint failed".to_owned(),
            RepoError::PoolExhausted => "timed out waiting for connection".to_owned(),
            RepoError::TransactionFailure => "transaction failed and was rolled back".to_owned(),
        }
    }
}

/// The error type of the relational store. Nothing inside it is seen here:
/// `kind_of` tells its variants apart.
#[verifier::external_type_specification]
#[verifier::external_body]
pub struct ExStoreError(diesel::result::Error);

/// What a store error is, as far as the answer depends on it.
#[derive(Debug, Clone, Copy, PartialEq, Eq, Structural)]
pub enum StoreErrorKind {
    /// A query that must give a row gave none.
    NotFound,
    /// A unique constraint, such as a primary key, was violated.
    UniqueViolation,
    /// A foreign key constraint was violated.
    ForeignKeyViolation,
    /// Any other failure of a statement or of the transaction around it.
    Other,
}

/// Which of the kinds a store error is. It depends on the error alone:
/// `NotFound` for the variant `NotFound`, `UniqueViolation` and
/// `ForeignKeyViolation` for a `DatabaseError` of that kind, and `Other` for
/// every other error.
pub uninterp spec fn store_error_kind(error: diesel::result::Error) -> StoreErrorKind;

/// Which variant a `diesel::result::Error` is: `NotFound`, a `DatabaseError`
/// whose kind is `UniqueViolation` or `ForeignKeyViolation`, or something
/// else. The answer is the error's kind, by definition of the kind.
#[verifier::external_body]
fn kind_of(error: &diesel::result::Error) -> (kind: StoreErrorKind)
    ensures
        kind == store_error_kind(*error),
{
    match error {
        Error::NotFound => StoreErrorKind::NotFound,
        Error::DatabaseError(DatabaseErrorKind::UniqueViolation, _) => {
            StoreErrorKind::UniqueViolation
        },
        Error::DatabaseError(DatabaseErrorKind::ForeignKeyViolation, _) => {
            StoreErrorKind::ForeignKeyViolation
        },
        _ => StoreErrorKind::Other,
    }
}

impl RepoError {
    /// The error that stands for a store error of this kind.
    pub open spec fn of_kind(kind: StoreErrorKind) -> RepoError {
        match kind {
            StoreErrorKind::NotFound => RepoError::NotFound,
            StoreErrorKind::UniqueViolation => RepoError::Conflict,
            StoreErrorKind::ForeignKeyViolation => RepoError::ConstraintViolation,
            StoreErrorKind::Other => RepoError::TransactionFailure,
        }
    }

    /// The error that stands for a store error of this kind: a missing row
    /// is `NotFound`, a violated unique constraint a `Conflict`, a violated
    /// foreign key a `ConstraintViolation`, and everything else a
    /// `TransactionFailure`.
    pub fn from_kind(kind: StoreErrorKind) -> (error: RepoError)
        ensures
            error == RepoError::of_kind(kind),
    {
        match kind {
            StoreErrorKind::NotFound => RepoError::NotFound,
            StoreErrorKind::UniqueViolation => RepoError::Conflict,
            StoreErrorKind::ForeignKeyViolation => RepoError::ConstraintViolation,
            StoreErrorKind::Other => RepoError::TransactionFailure,
        }
    }

    /// The error that stands for an error of the relational store: the one
    /// that stands for its kind. It is never `PoolExhausted`: that one comes
    /// from the pool, not from a statement.
    pub fn from_store_error(error: &diesel::result::Error) -> (mapped: RepoError)
        ensures
            mapped == RepoError::of_kind(store_error_kind(*error)),
            mapped != RepoError::PoolExhausted,
    {
        let kind = kind_of(error);
        RepoError::from_kind(kind)
    }
}

} // verus!
