use lending_library::error::RepoError;
use lending_library::models::book::{Book, NewBorrowedBook};
use lending_library::models::member::{Member, NewMember};
use lending_library::repositories::create_tables;
use lending_library::store::Store;
use lending_library::traits::{BookRepositoryTrait, LibraryRepositoryTrait, MemberRepositoryTrait};

const T0: &str = "2024-01-01 10:00:00";
const T1: &str = "2024-01-02 11:30:00";

fn empty_store() -> Store {
    let mut store = Store::new();
    create_tables(&mut store);
    store
}

/// Members 1 and 2, libraries 1 and 2, books 1 and 2 in library 1, book 3 in
/// library 2.
fn stocked_store() -> Store {
    let mut store = empty_store();
    assert_eq!(store.create_member_at("Ada", "ada@example.org", T0), Ok(1));
    assert_eq!(store.create_member_at("Bob", "bob@example.org", T0), Ok(2));
    assert_eq!(store.create_library_at("Central", "1 Main St", &1, T0), Ok(1));
    assert_eq!(store.create_library_at("East", "2 Side St", &2, T0), Ok(2));
    assert_eq!(store.create_book_at("A", "a", &1, T0), Ok(1));
    assert_eq!(store.create_book_at("B", "b", &1, T0), Ok(2));
    assert_eq!(store.create_book_at("C", "c", &2, T0), Ok(3));
    store
}

fn member(id: i32, name: &str, email: &str, created_at: &str, updated_at: &str) -> Member {
    Member {
        id,
        name: name.to_string(),
        email: email.to_string(),
        created_at: created_at.to_string(),
        updated_at: updated_at.to_string(),
    }
}

fn titles(books: Vec<Book>) -> Vec<String> {
    books.into_iter().map(|b| b.title).collect()
}

#[test]
fn created_member_is_found_by_id() {
    let mut store = empty_store();
    assert_eq!(store.create_member_at("Ada", "ada@example.org", T0), Ok(1));
    assert_eq!(store.get_member_by_id(&1), Ok(member(1, "Ada", "ada@example.org", T0, T0)));
    assert_eq!(store.get_member_by_id(&2), Err(RepoError::NotFound));
    assert_eq!(store.get_members(), Ok(vec![member(1, "Ada", "ada@example.org", T0, T0)]));
}

#[test]
fn create_member_with_the_clock_stamps_both_times_alike() {
    let mut store = empty_store();
    let id = store.create_member("Ada", "ada@example.org").unwrap();
    let found = store.get_member_by_id(&id).unwrap();
    assert_eq!(found.name, "Ada");
    assert_eq!(found.email, "ada@example.org");
    assert_eq!(found.created_at, found.updated_at);
    assert!(!found.created_at.is_empty());
}

#[test]
fn insert_member_keeps_both_timestamps_as_given() {
    let mut store = empty_store();
    let row = NewMember { name: "Ada", email: "ada@example.org", created_at: T0, updated_at: T1 };
    assert_eq!(store.insert_member(&row), Ok(1));
    assert_eq!(store.get_member_by_id(&1), Ok(member(1, "Ada", "ada@example.org", T0, T1)));
}

#[test]
fn update_member_refreshes_updated_at() {
    let mut store = empty_store();
    store.create_member_at("Ada", "ada@example.org", T0).unwrap();
    assert_eq!(store.update_member_at(&1, "Ada L.", "al@example.org", T1), Ok(1));
    assert_eq!(store.get_member_by_id(&1), Ok(member(1, "Ada L.", "al@example.org", T0, T1)));
    assert_eq!(store.update_member_at(&4, "x", "y", T1), Ok(0));
}

#[test]
fn update_member_with_the_clock_keeps_created_at() {
    let mut store = empty_store();
    store.create_member_at("Ada", "ada@example.org", T0).unwrap();
    assert_eq!(store.update_member(&1, "Ada L.", "al@example.org"), Ok(1));
    let found = store.get_member_by_id(&1).unwrap();
    assert_eq!(found.name, "Ada L.");
    assert_eq!(found.email, "al@example.org");
    assert_eq!(found.created_at, T0);
    assert!(!found.updated_at.is_empty());
    assert!(found.updated_at.as_str() >= T0);
}

#[test]
fn delete_member_keeps_the_members_loans() {
    let mut store = stocked_store();
    assert_eq!(store.borrow_book_at(&2, &1, T1), Ok(1));
    assert_eq!(store.delete_member(&2), Ok(1));
    assert_eq!(store.delete_member(&2), Ok(0));
    assert_eq!(store.get_member_by_id(&2), Err(RepoError::NotFound));
    assert_eq!(titles(store.get_borrowed_books(&2, None).unwrap()), vec!["A"]);
}

#[test]
fn no_library_has_members_on_its_roster() {
    let mut store = stocked_store();
    assert_eq!(store.get_members_by_library_id(&1), Ok(vec![]));
    assert_eq!(store.get_members_by_library_id(&2), Ok(vec![]));
    assert_eq!(store.get_members_by_library_id(&9), Ok(vec![]));
}

#[test]
fn second_borrow_is_a_conflict() {
    let mut store = stocked_store();
    assert_eq!(store.borrow_book_at(&1, &2, T0), Ok(1));
    assert_eq!(store.borrow_book_at(&1, &2, T1), Err(RepoError::Conflict));
    // The loan is the first one.
    assert_eq!(store.borrowed_at(1, 2), Some(T0.to_string()));
    // Exactly one loan of the pair: one return finds it, the next finds none.
    assert_eq!(titles(store.get_borrowed_books(&1, None).unwrap()), vec!["B"]);
    assert_eq!(store.return_book(&1, &2), Ok(1));
    assert_eq!(store.return_book(&1, &2), Ok(0));
}

#[test]
fn borrow_with_the_clock_enters_the_loan() {
    let mut store = stocked_store();
    assert_eq!(store.borrow_book(&1, &2), Ok(1));
    assert_eq!(store.borrow_book(&1, &2), Err(RepoError::Conflict));
    assert_eq!(titles(store.get_borrowed_books(&1, None).unwrap()), vec!["B"]);
}

#[test]
fn second_return_counts_zero() {
    let mut store = stocked_store();
    assert_eq!(store.borrow_book_at(&1, &1, T1), Ok(1));
    assert_eq!(store.return_book(&1, &1), Ok(1));
    assert_eq!(store.borrowed_at(1, 1), None);
    assert_eq!(store.return_book(&1, &1), Ok(0));
    assert_eq!(store.get_borrowed_books(&1, None), Ok(vec![]));
    // The book can be borrowed again.
    assert_eq!(store.borrow_book_at(&1, &1, T1), Ok(1));
}

#[test]
fn borrow_needs_member_and_book() {
    let mut store = stocked_store();
    assert_eq!(store.borrow_book_at(&9, &1, T1), Err(RepoError::ConstraintViolation));
    assert_eq!(store.borrow_book_at(&1, &9, T1), Err(RepoError::ConstraintViolation));
    assert_eq!(store.get_borrowed_books(&1, None), Ok(vec![]));
}

#[test]
fn borrow_does_not_look_at_the_copies() {
    let mut store = stocked_store();
    assert_eq!(store.add_book_quantity(&1, &1, &0), Ok(1));
    assert_eq!(store.borrow_book_at(&1, &1, T1), Ok(1));
    assert_eq!(store.borrow_book_at(&2, &1, T1), Ok(1));
    // The quantity is as it was set.
    assert_eq!(store.holding(1, 1).unwrap().quantity, 0);
}

#[test]
fn insert_borrowed_book_enters_the_row() {
    let mut store = stocked_store();
    let row = NewBorrowedBook { member_id: &2, book_id: &3, borrowed_at: T1 };
    assert_eq!(store.insert_borrowed_book(&row), Ok(1));
    assert_eq!(store.insert_borrowed_book(&row), Err(RepoError::Conflict));
    assert_eq!(titles(store.get_borrowed_books(&2, None).unwrap()), vec!["C"]);
}

#[test]
fn borrowed_books_of_all_libraries_and_of_one() {
    let mut store = stocked_store();
    assert_eq!(store.borrow_book_at(&1, &3, T1), Ok(1));
    assert_eq!(store.borrow_book_at(&1, &1, T1), Ok(1));
    assert_eq!(store.borrow_book_at(&2, &2, T1), Ok(1));
    assert_eq!(titles(store.get_borrowed_books(&1, None).unwrap()), vec!["A", "C"]);
    assert_eq!(titles(store.get_borrowed_books(&1, Some(1)).unwrap()), vec!["A"]);
    assert_eq!(titles(store.get_borrowed_books(&1, Some(2)).unwrap()), vec!["C"]);
    assert_eq!(store.get_borrowed_books(&1, Some(7)), Ok(vec![]));
    assert_eq!(titles(store.get_borrowed_books(&2, None).unwrap()), vec!["B"]);
    assert_eq!(store.get_borrowed_books(&2, Some(2)), Ok(vec![]));
}

#[test]
fn a_book_held_by_two_libraries_is_listed_once() {
    let mut store = stocked_store();
    assert_eq!(store.add_book(&2, &1), Ok(1));
    assert_eq!(store.borrow_book_at(&1, &1, T1), Ok(1));
    assert_eq!(titles(store.get_borrowed_books(&1, None).unwrap()), vec!["A"]);
    assert_eq!(titles(store.get_borrowed_books(&1, Some(1)).unwrap()), vec!["A"]);
    assert_eq!(titles(store.get_borrowed_books(&1, Some(2)).unwrap()), vec!["A"]);
}

#[test]
fn member_operations_without_schema_fail() {
    let mut store = Store::new();
    assert_eq!(store.create_member_at("A", "a", T0), Err(RepoError::TransactionFailure));
    assert_eq!(store.get_members(), Err(RepoError::TransactionFailure));
    assert_eq!(store.get_member_by_id(&1), Err(RepoError::TransactionFailure));
    assert_eq!(store.update_member_at(&1, "A", "a", T0), Err(RepoError::TransactionFailure));
    assert_eq!(store.delete_member(&1), Err(RepoError::TransactionFailure));
    assert_eq!(store.get_members_by_library_id(&1), Err(RepoError::TransactionFailure));
    assert_eq!(store.borrow_book_at(&1, &1, T0), Err(RepoError::TransactionFailure));
    assert_eq!(store.return_book(&1, &1), Err(RepoError::TransactionFailure));
    assert_eq!(store.get_borrowed_books(&1, None), Err(RepoError::TransactionFailure));
}

#[test]
fn a_loan_that_is_there_conflicts_even_after_its_book_is_gone() {
    let mut store = stocked_store();
    assert_eq!(store.borrow_book_at(&1, &1, T1), Ok(1));
    assert_eq!(store.delete_book(&1), Ok(1));
    assert_eq!(store.borrow_book_at(&1, &1, T1), Err(RepoError::Conflict));
    assert_eq!(store.borrow_book_at(&2, &1, T1), Err(RepoError::ConstraintViolation));
}
