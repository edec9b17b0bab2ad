use lending_library::error::RepoError;
use lending_library::models::book::{Book, LibraryBook, NewBook};
use lending_library::repositories::create_tables;
use lending_library::store::Store;
use lending_library::traits::{BookRepositoryTrait, LibraryRepositoryTrait, MemberRepositoryTrait};

const T0: &str = "2024-01-01 10:00:00";
const T1: &str = "2024-01-02 11:30:00";

/// A store with the schema, one member (id 1) and one library (id 1).
fn store_with_library() -> Store {
    let mut store = Store::new();
    create_tables(&mut store);
    assert_eq!(store.create_member_at("Ada", "ada@example.org", T0), Ok(1));
    assert_eq!(store.create_library_at("Central", "1 Main St", &1, T0), Ok(1));
    store
}

fn book(id: i32, title: &str, author: &str, created_at: &str, updated_at: &str) -> Book {
    Book {
        id,
        title: title.to_string(),
        author: author.to_string(),
        created_at: created_at.to_string(),
        updated_at: updated_at.to_string(),
    }
}

#[test]
fn created_book_is_found_by_its_id() {
    let mut store = store_with_library();
    let id = store.create_book_at("Dune", "Frank Herbert", &1, T1).unwrap();
    assert_eq!(id, 1);
    assert_eq!(store.get_book_by_id(&id), Ok(book(1, "Dune", "Frank Herbert", T1, T1)));
}

#[test]
fn created_book_is_listed_for_its_library_with_one_copy() {
    let mut store = store_with_library();
    let id = store.create_book_at("Dune", "Frank Herbert", &1, T1).unwrap();
    assert_eq!(
        store.get_books_by_library_id(&1),
        Ok(vec![book(1, "Dune", "Frank Herbert", T1, T1)])
    );
    assert_eq!(
        store.holding(1, id),
        Some(LibraryBook { library_id: 1, book_id: id, quantity: 1 })
    );
    assert_eq!(store.add_book(&1, &id), Err(RepoError::Conflict));
}

#[test]
fn create_with_the_clock_stamps_both_times_alike() {
    let mut store = store_with_library();
    let id = store.create_book("Dune", "Frank Herbert", &1).unwrap();
    let found = store.get_book_by_id(&id).unwrap();
    assert_eq!(found.title, "Dune");
    assert_eq!(found.author, "Frank Herbert");
    assert_eq!(found.created_at, found.updated_at);
    assert!(!found.created_at.is_empty());
}

#[test]
fn create_for_a_missing_library_leaves_no_trace() {
    let mut store = store_with_library();
    store.create_book_at("Dune", "Frank Herbert", &1, T1).unwrap();
    let before = store.get_books().unwrap();
    assert_eq!(
        store.create_book_at("Emma", "Jane Austen", &7, T1),
        Err(RepoError::ConstraintViolation)
    );
    assert_eq!(store.get_books().unwrap(), before);
    assert_eq!(store.get_books().unwrap().len(), 1);
    assert_eq!(store.holding(7, 2), None);
    // The id that the failed creation would have had is given to the next one.
    assert_eq!(store.create_book_at("Emma", "Jane Austen", &1, T1), Ok(2));
}

#[test]
fn update_book_changes_title_and_author_only() {
    let mut store = store_with_library();
    let id = store.create_book_at("Dune", "Frank Herbert", &1, T0).unwrap();
    assert_eq!(store.update_book(&id, "Dune Messiah", "F. Herbert"), Ok(1));
    assert_eq!(store.get_book_by_id(&id), Ok(book(1, "Dune Messiah", "F. Herbert", T0, T0)));
    assert_eq!(store.update_book(&99, "x", "y"), Ok(0));
}

#[test]
fn delete_book_keeps_holdings_and_loans() {
    let mut store = store_with_library();
    let id = store.create_book_at("Dune", "Frank Herbert", &1, T0).unwrap();
    assert_eq!(store.borrow_book_at(&1, &id, T1), Ok(1));
    assert_eq!(store.delete_book(&id), Ok(1));
    assert_eq!(store.delete_book(&id), Ok(0));
    assert_eq!(store.get_book_by_id(&id), Err(RepoError::NotFound));
    // The rows that referred to the book are still there.
    assert_eq!(store.add_book_quantity(&1, &id, &4), Ok(1));
    assert_eq!(store.return_book(&1, &id), Ok(1));
    // The book is gone from every listing.
    assert_eq!(store.get_books_by_library_id(&1), Ok(vec![]));
}

#[test]
fn get_book_by_id_of_missing_book_is_not_found() {
    let mut store = store_with_library();
    assert_eq!(store.get_book_by_id(&1), Err(RepoError::NotFound));
}

#[test]
fn get_books_lists_in_id_order() {
    let mut store = store_with_library();
    store.create_book_at("A", "a", &1, T0).unwrap();
    store.create_book_at("B", "b", &1, T1).unwrap();
    assert_eq!(
        store.get_books(),
        Ok(vec![book(1, "A", "a", T0, T0), book(2, "B", "b", T1, T1)])
    );
}

#[test]
fn library_without_books_lists_none() {
    let mut store = store_with_library();
    assert_eq!(store.get_books_by_library_id(&1), Ok(vec![]));
    assert_eq!(store.get_books_by_library_id(&42), Ok(vec![]));
}

#[test]
fn insert_book_alone_makes_no_holding() {
    let mut store = store_with_library();
    let row = NewBook { title: "Dune", author: "Frank Herbert", created_at: T0, updated_at: T1 };
    assert_eq!(store.insert_book(&row), Ok(1));
    assert_eq!(store.highest_book_id(), Ok(1));
    assert_eq!(store.get_book_by_id(&1), Ok(book(1, "Dune", "Frank Herbert", T0, T1)));
    assert_eq!(store.get_books_by_library_id(&1), Ok(vec![]));
    assert_eq!(store.holding(1, 1), None);
}

#[test]
fn highest_book_id_of_empty_catalog_is_not_found() {
    let store = store_with_library();
    assert_eq!(store.highest_book_id(), Err(RepoError::NotFound));
}

#[test]
fn ids_are_not_given_twice() {
    let mut store = store_with_library();
    assert_eq!(store.create_book_at("A", "a", &1, T0), Ok(1));
    assert_eq!(store.delete_book(&1), Ok(1));
    assert_eq!(store.create_book_at("B", "b", &1, T0), Ok(2));
}

#[test]
fn successive_creations_are_distinct_and_linked() {
    let mut store = store_with_library();
    assert_eq!(store.create_library_at("East", "2 Side St", &1, T0), Ok(2));
    let mut ids = Vec::new();
    for n in 0..20 {
        let library = 1 + (n % 2);
        let id = store.create_book_at("T", "A", &library, T0).unwrap();
        assert!(!ids.contains(&id));
        ids.push(id);
    }
    assert_eq!(store.get_books().unwrap().len(), 20);
    assert_eq!(store.get_books_by_library_id(&1).unwrap().len(), 10);
    assert_eq!(store.get_books_by_library_id(&2).unwrap().len(), 10);
    for id in ids {
        let library = if id % 2 == 1 { 1 } else { 2 };
        assert_eq!(
            store.holding(library, id),
            Some(LibraryBook { library_id: library, book_id: id, quantity: 1 })
        );
        assert_eq!(store.holding(3 - library, id), None);
    }
}

#[test]
fn operations_without_schema_fail() {
    let mut store = Store::new();
    assert_eq!(store.create_book_at("A", "a", &1, T0), Err(RepoError::TransactionFailure));
    assert_eq!(store.update_book(&1, "A", "a"), Err(RepoError::TransactionFailure));
    assert_eq!(store.delete_book(&1), Err(RepoError::TransactionFailure));
    assert_eq!(store.get_book_by_id(&1), Err(RepoError::TransactionFailure));
    assert_eq!(store.get_books(), Err(RepoError::TransactionFailure));
    assert_eq!(store.get_books_by_library_id(&1), Err(RepoError::TransactionFailure));
    assert_eq!(store.highest_book_id(), Err(RepoError::TransactionFailure));
}
