use diesel::result::{DatabaseErrorKind, Error};
use lending_library::connection::database_url;
use lending_library::error::{RepoError, StoreErrorKind};

fn database_error(kind: DatabaseErrorKind) -> Error {
    Error::DatabaseError(kind, Box::new("constraint failed".to_string()))
}

#[test]
fn missing_row_maps_to_not_found() {
    assert_eq!(RepoError::from_store_error(&Error::NotFound), RepoError::NotFound);
}

#[test]
fn unique_violation_maps_to_conflict() {
    assert_eq!(
        RepoError::from_store_error(&database_error(DatabaseErrorKind::UniqueViolation)),
        RepoError::Conflict
    );
}

#[test]
fn foreign_key_violation_maps_to_constraint_violation() {
    assert_eq!(
        RepoError::from_store_error(&database_error(DatabaseErrorKind::ForeignKeyViolation)),
        RepoError::ConstraintViolation
    );
}

#[test]
fn everything_else_maps_to_transaction_failure() {
    for kind in [
        DatabaseErrorKind::ReadOnlyTransaction,
        DatabaseErrorKind::NotNullViolation,
        DatabaseErrorKind::CheckViolation,
    ] {
        assert_eq!(
            RepoError::from_store_error(&database_error(kind)),
            RepoError::TransactionFailure
        );
    }
    assert_eq!(
        RepoError::from_store_error(&Error::RollbackTransaction),
        RepoError::TransactionFailure
    );
    assert_eq!(
        RepoError::from_store_error(&Error::BrokenTransactionManager),
        RepoError::TransactionFailure
    );
}

#[test]
fn kinds_map_one_by_one() {
    assert_eq!(RepoError::from_kind(StoreErrorKind::NotFound), RepoError::NotFound);
    assert_eq!(RepoError::from_kind(StoreErrorKind::UniqueViolation), RepoError::Conflict);
    assert_eq!(
        RepoError::from_kind(StoreErrorKind::ForeignKeyViolation),
        RepoError::ConstraintViolation
    );
    assert_eq!(RepoError::from_kind(StoreErrorKind::Other), RepoError::TransactionFailure);
}

#[test]
fn configured_location_is_taken() {
    assert_eq!(database_url(Some("sqlite://elsewhere.db".to_string())), "sqlite://elsewhere.db");
    assert_eq!(database_url(Some(String::new())), "");
}

#[test]
fn missing_location_falls_back_to_the_default() {
    assert_eq!(database_url(None), "sqlite://my_database.db");
}
