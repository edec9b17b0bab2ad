use lending_library::error::RepoError;
use lending_library::repositories::create_tables;
use lending_library::schema::{relations_in_order, Relation};
use lending_library::store::Store;
use lending_library::traits::{BookRepositoryTrait, MemberRepositoryTrait};

const ALL: [Relation; 6] = [
    Relation::Members,
    Relation::Library,
    Relation::Books,
    Relation::LibraryBooks,
    Relation::LibraryMembers,
    Relation::BorrowedBooks,
];

#[test]
fn new_store_has_no_relations() {
    let store = Store::new();
    assert!(!store.is_ready());
    for relation in ALL {
        assert!(!store.has_relation(relation));
    }
}

#[test]
fn create_tables_makes_all_six() {
    let mut store = Store::new();
    create_tables(&mut store);
    assert!(store.is_ready());
    for relation in ALL {
        assert!(store.has_relation(relation));
    }
}

#[test]
fn create_tables_twice_keeps_the_rows() {
    let mut store = Store::new();
    create_tables(&mut store);
    assert_eq!(store.create_member_at("Ada", "ada@example.org", "t"), Ok(1));
    create_tables(&mut store);
    assert!(store.is_ready());
    assert_eq!(store.get_members().unwrap().len(), 1);
    assert_eq!(store.create_member_at("Bob", "bob@example.org", "t"), Ok(2));
}

#[test]
fn create_tables_completes_a_partial_schema() {
    let mut store = Store::new();
    store.create_relation(Relation::Books);
    store.create_relation(Relation::Books);
    assert!(store.has_relation(Relation::Books));
    assert!(!store.is_ready());
    assert_eq!(store.get_books(), Err(RepoError::TransactionFailure));
    create_tables(&mut store);
    assert!(store.is_ready());
    assert_eq!(store.get_books(), Ok(vec![]));
}

#[test]
fn relations_come_in_dependency_order() {
    assert_eq!(relations_in_order(), ALL.to_vec());
}
