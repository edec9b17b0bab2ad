use lending_library::error::RepoError;
use lending_library::models::book::{LibraryBook, NewLibraryBook};
use lending_library::models::library::{Library, NewLibrary};
use lending_library::repositories::create_tables;
use lending_library::store::Store;
use lending_library::traits::{BookRepositoryTrait, LibraryRepositoryTrait, MemberRepositoryTrait};

const T0: &str = "2024-01-01 10:00:00";
const T1: &str = "2024-01-02 11:30:00";

/// A store with the schema and two members (ids 1 and 2).
fn store_with_members() -> Store {
    let mut store = Store::new();
    create_tables(&mut store);
    assert_eq!(store.create_member_at("Ada", "ada@example.org", T0), Ok(1));
    assert_eq!(store.create_member_at("Bob", "bob@example.org", T0), Ok(2));
    store
}

fn library(id: i32, name: &str, address: &str, at: &str, manager_id: i32) -> Library {
    Library {
        id,
        name: name.to_string(),
        address: address.to_string(),
        created_at: at.to_string(),
        updated_at: at.to_string(),
        manager_id,
    }
}

#[test]
fn created_library_is_found_by_its_id() {
    let mut store = store_with_members();
    assert_eq!(store.create_library_at("Central", "1 Main St", &2, T1), Ok(1));
    assert_eq!(store.get_library_by_id(&1), Ok(library(1, "Central", "1 Main St", T1, 2)));
    assert_eq!(store.get_libraries(), Ok(vec![library(1, "Central", "1 Main St", T1, 2)]));
}

#[test]
fn create_library_with_the_clock_stamps_both_times_alike() {
    let mut store = store_with_members();
    let id = store.create_library("Central", "1 Main St", &1).unwrap();
    let found = store.get_library_by_id(&id).unwrap();
    assert_eq!(found.name, "Central");
    assert_eq!(found.manager_id, 1);
    assert_eq!(found.created_at, found.updated_at);
    assert!(!found.created_at.is_empty());
}

#[test]
fn library_needs_a_manager_who_is_a_member() {
    let mut store = store_with_members();
    assert_eq!(
        store.create_library_at("Central", "1 Main St", &3, T0),
        Err(RepoError::ConstraintViolation)
    );
    assert_eq!(store.get_libraries(), Ok(vec![]));
    assert_eq!(store.create_library_at("Central", "1 Main St", &1, T0), Ok(1));
}

#[test]
fn insert_library_keeps_both_timestamps_as_given() {
    let mut store = store_with_members();
    let row = NewLibrary {
        name: "Central",
        address: "1 Main St",
        manager_id: &1,
        created_at: T0,
        updated_at: T1,
    };
    assert_eq!(store.insert_library(&row), Ok(1));
    let found = store.get_library_by_id(&1).unwrap();
    assert_eq!(found.created_at, T0);
    assert_eq!(found.updated_at, T1);
}

#[test]
fn update_library_changes_name_address_and_manager() {
    let mut store = store_with_members();
    store.create_library_at("Central", "1 Main St", &1, T0).unwrap();
    assert_eq!(store.update_library(&1, "North", "9 Hill Rd", &2), Ok(1));
    assert_eq!(store.get_library_by_id(&1), Ok(library(1, "North", "9 Hill Rd", T0, 2)));
    assert_eq!(store.update_library(&5, "North", "9 Hill Rd", &2), Ok(0));
    // A library that is not there is not held against the members.
    assert_eq!(store.update_library(&5, "North", "9 Hill Rd", &77), Ok(0));
    assert_eq!(
        store.update_library(&1, "South", "3 Low Rd", &77),
        Err(RepoError::ConstraintViolation)
    );
    assert_eq!(store.get_library_by_id(&1), Ok(library(1, "North", "9 Hill Rd", T0, 2)));
}

#[test]
fn delete_library_keeps_its_holdings() {
    let mut store = store_with_members();
    store.create_library_at("Central", "1 Main St", &1, T0).unwrap();
    let book = store.create_book_at("Dune", "Frank Herbert", &1, T0).unwrap();
    assert_eq!(store.delete_library(&1), Ok(1));
    assert_eq!(store.delete_library(&1), Ok(0));
    assert_eq!(store.get_library_by_id(&1), Err(RepoError::NotFound));
    assert_eq!(store.get_books_by_library_id(&1).unwrap().len(), 1);
    assert_eq!(store.add_book_quantity(&1, &book, &2), Ok(1));
}

#[test]
fn add_book_enters_one_copy() {
    let mut store = store_with_members();
    store.create_library_at("Central", "1 Main St", &1, T0).unwrap();
    store.create_library_at("East", "2 Side St", &2, T0).unwrap();
    let book = store.create_book_at("Dune", "Frank Herbert", &1, T0).unwrap();
    assert_eq!(store.get_books_by_library_id(&2), Ok(vec![]));
    assert_eq!(store.add_book(&2, &book), Ok(1));
    assert_eq!(store.holding(2, book).unwrap().quantity, 1);
    assert_eq!(store.get_books_by_library_id(&2).unwrap().len(), 1);
    assert_eq!(store.add_book_quantity(&2, &book, &8), Ok(1));
    assert_eq!(store.add_book(&2, &book), Err(RepoError::Conflict));
    assert_eq!(store.holding(2, book).unwrap().quantity, 8);
    assert_eq!(store.get_books_by_library_id(&2).unwrap().len(), 1);
}

#[test]
fn add_book_needs_library_and_book() {
    let mut store = store_with_members();
    store.create_library_at("Central", "1 Main St", &1, T0).unwrap();
    let book = store.create_book_at("Dune", "Frank Herbert", &1, T0).unwrap();
    assert_eq!(store.add_book(&9, &book), Err(RepoError::ConstraintViolation));
    assert_eq!(store.add_book(&1, &9), Err(RepoError::ConstraintViolation));
}

#[test]
fn insert_library_book_takes_the_quantity_given() {
    let mut store = store_with_members();
    store.create_library_at("Central", "1 Main St", &1, T0).unwrap();
    store.create_library_at("East", "2 Side St", &2, T0).unwrap();
    let book = store.create_book_at("Dune", "Frank Herbert", &1, T0).unwrap();
    let row = NewLibraryBook { library_id: &2, book_id: &book, quantity: &6 };
    assert_eq!(store.insert_library_book(&row), Ok(1));
    assert_eq!(store.holding(2, book).unwrap().quantity, 6);
    assert_eq!(store.insert_library_book(&row), Err(RepoError::Conflict));
    assert_eq!(store.holding(2, book).unwrap().quantity, 6);
}

#[test]
fn quantity_is_overwritten_not_added() {
    let mut store = store_with_members();
    store.create_library_at("Central", "1 Main St", &1, T0).unwrap();
    let book = store.create_book_at("Dune", "Frank Herbert", &1, T0).unwrap();
    assert_eq!(store.add_book_quantity(&1, &book, &5), Ok(1));
    assert_eq!(store.holding(1, book).unwrap().quantity, 5);
    assert_eq!(store.add_book_quantity(&1, &book, &3), Ok(1));
    assert_eq!(
        store.holding(1, book),
        Some(LibraryBook { library_id: 1, book_id: book, quantity: 3 })
    );
    // Still one holding of the pair: the book is listed once.
    assert_eq!(store.get_books_by_library_id(&1).unwrap().len(), 1);
    assert_eq!(store.add_book(&1, &book), Err(RepoError::Conflict));
}

#[test]
fn quantity_of_a_pair_that_is_not_held_changes_nothing() {
    let mut store = store_with_members();
    store.create_library_at("Central", "1 Main St", &1, T0).unwrap();
    store.create_library_at("East", "2 Side St", &2, T0).unwrap();
    let book = store.create_book_at("Dune", "Frank Herbert", &1, T0).unwrap();
    assert_eq!(store.add_book_quantity(&2, &book, &5), Ok(0));
    assert_eq!(store.holding(2, book), None);
    assert_eq!(store.get_books_by_library_id(&2), Ok(vec![]));
    // No holding was made: the pair can still be added.
    assert_eq!(store.add_book(&2, &book), Ok(1));
}

#[test]
fn library_operations_without_schema_fail() {
    let mut store = Store::new();
    assert_eq!(store.create_library_at("C", "a", &1, T0), Err(RepoError::TransactionFailure));
    assert_eq!(store.get_libraries(), Err(RepoError::TransactionFailure));
    assert_eq!(store.get_library_by_id(&1), Err(RepoError::TransactionFailure));
    assert_eq!(store.update_library(&1, "C", "a", &1), Err(RepoError::TransactionFailure));
    assert_eq!(store.delete_library(&1), Err(RepoError::TransactionFailure));
    assert_eq!(store.add_book(&1, &1), Err(RepoError::TransactionFailure));
    assert_eq!(store.add_book_quantity(&1, &1, &1), Err(RepoError::TransactionFailure));
}
