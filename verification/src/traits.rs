//! What a repository of each kind can do, whatever keeps its rows.
//!
//! Beside each operation stands a relation of the same arguments, which says
//! how the operation's result and the repository after it hang together
//! with the repository before it. By default a relation holds of
//! everything: an implementation may sit on a store that fails for reasons
//! of its own, and then promises nothing. An implementation that knows what
//! its operations do says so by defining the relations. The in-memory
//! `Store` defines all of them, exactly.

use crate::error::RepoError;
use crate::models::book::Book;
use crate::models::library::Library;
use crate::models::member::Member;
use crate::state::StoreState;
use vstd::prelude::*;

verus! {

pub trait BookRepositoryTrait {
    /// What must hold of the repository between two operations. An
    /// implementation with an invariant of its own states it here.
    open spec fn valid(&self) -> bool {
        true
    }

    /// The rows that the repository keeps, where an implementation says
    /// what they are.
    open spec fn content(&self) -> StoreState {
        StoreState::empty()
    }

    /// What `create_book` gives and leaves behind, where an implementation says it.
    open spec fn creates_book(
        &self,
        title: Seq<char>,
        author: Seq<char>,
        library_id: int,
        after: StoreState,
        created: Result<i32, RepoError>,
    ) -> bool {
        true
    }

    /// Adds a book to the catalog and one copy of it to the library's
    /// holdings; gives the new book's id.
    fn create_book(&mut self, title: &str, author: &str, library_id: &i32) -> (created: Result<i32, RepoError>)
        requires
            old(self).valid(),
        ensures
            final(self).valid(),
            old(self).creates_book(
                title@,
                author@,
                *library_id as int,
                final(self).content(),
                created,
            ),
    ;

    /// What `update_book` gives and leaves behind, where an implementation says it.
    open spec fn updates_book(
        &self,
        id: int,
        title: Seq<char>,
        author: Seq<char>,
        after: StoreState,
        updated: Result<usize, RepoError>,
    ) -> bool {
        true
    }

    /// Changes a book's title and author; gives the number of rows changed.
    fn update_book(&mut self, id: &i32, title: &str, author: &str) -> (updated: Result<usize, RepoError>)
        requires
            old(self).valid(),
        ensures
            final(self).valid(),
            old(self).updates_book(
                *id as int,
                title@,
                author@,
                final(self).content(),
                updated,
            ),
    ;

    /// What `delete_book` gives and leaves behind, where an implementation says it.
    open spec fn deletes_book(
        &self,
        id: int,
        after: StoreState,
        deleted: Result<usize, RepoError>,
    ) -> bool {
        true
    }

    /// Takes a book out of the catalog; gives the number of rows deleted.
    fn delete_book(&mut self, id: &i32) -> (deleted: Result<usize, RepoError>)
        requires
            old(self).valid(),
        ensures
            final(self).valid(),
            old(self).deletes_book(
                *id as int,
                final(self).content(),
                deleted,
            ),
    ;

    /// What `get_book_by_id` gives and leaves behind, where an implementation says it.
    open spec fn finds_book(
        &self,
        id: int,
        after: StoreState,
        found: Result<Book, RepoError>,
    ) -> bool {
        true
    }

    /// The book with this id.
    fn get_book_by_id(&mut self, id: &i32) -> (found: Result<Book, RepoError>)
        requires
            old(self).valid(),
        ensures
            final(self).valid(),
            old(self).finds_book(
                *id as int,
                final(self).content(),
                found,
            ),
    ;

    /// What `get_books` gives and leaves behind, where an implementation says it.
    open spec fn lists_books(
        &self,
        after: StoreState,
        found: Result<Vec<Book>, RepoError>,
    ) -> bool {
        true
    }

    /// All books.
    fn get_books(&mut self) -> (found: Result<Vec<Book>, RepoError>)
        requires
            old(self).valid(),
        ensures
            final(self).valid(),
            old(self).lists_books(
                final(self).content(),
                found,
            ),
    ;

    /// What `get_books_by_library_id` gives and leaves behind, where an implementation says it.
    open spec fn lists_books_of_library(
        &self,
        library_id: int,
        after: StoreState,
        found: Result<Vec<Book>, RepoError>,
    ) -> bool {
        true
    }

    /// The books of which the library holds copies.
    fn get_books_by_library_id(&mut self, library_id: &i32) -> (found: Result<Vec<Book>, RepoError>)
        requires
            old(self).valid(),
        ensures
            final(self).valid(),
            old(self).lists_books_of_library(
                *library_id as int,
                final(self).content(),
                found,
            ),
    ;
}

pub trait LibraryRepositoryTrait {
    /// What must hold of the repository between two operations. An
    /// implementation with an invariant of its own states it here.
    open spec fn valid(&self) -> bool {
        true
    }

    /// The rows that the repository keeps, where an implementation says
    /// what they are.
    open spec fn content(&self) -> StoreState {
        StoreState::empty()
    }

    /// What `create_library` gives and leaves behind, where an implementation says it.
    open spec fn creates_library(
        &self,
        name: Seq<char>,
        address: Seq<char>,
        manager_id: int,
        after: StoreState,
        created: Result<i32, RepoError>,
    ) -> bool {
        true
    }

    /// Opens a library; gives its id.
    fn create_library(&mut self, name: &str, address: &str, manager_id: &i32) -> (created: Result<i32, RepoError>)
        requires
            old(self).valid(),
        ensures
            final(self).valid(),
            old(self).creates_library(
                name@,
                address@,
                *manager_id as int,
                final(self).content(),
                created,
            ),
    ;

    /// What `get_libraries` gives and leaves behind, where an implementation says it.
    open spec fn lists_libraries(
        &self,
        after: StoreState,
        found: Result<Vec<Library>, RepoError>,
    ) -> bool {
        true
    }

    /// All libraries.
    fn get_libraries(&mut self) -> (found: Result<Vec<Library>, RepoError>)
        requires
            old(self).valid(),
        ensures
            final(self).valid(),
            old(self).lists_libraries(
                final(self).content(),
                found,
            ),
    ;

    /// What `get_library_by_id` gives and leaves behind, where an implementation says it.
    open spec fn finds_library(
        &self,
        id: int,
        after: StoreState,
        found: Result<Library, RepoError>,
    ) -> bool {
        true
    }

    /// The library with this id.
    fn get_library_by_id(&mut self, id: &i32) -> (found: Result<Library, RepoError>)
        requires
            old(self).valid(),
        ensures
            final(self).valid(),
            old(self).finds_library(
                *id as int,
                final(self).content(),
                found,
            ),
    ;

    /// What `update_library` gives and leaves behind, where an implementation says it.
    open spec fn updates_library(
        &self,
        id: int,
        name: Seq<char>,
        address: Seq<char>,
        manager_id: int,
        after: StoreState,
        updated: Result<usize, RepoError>,
    ) -> bool {
        true
    }

    /// Changes a library's name, address and manager; gives the number of
    /// rows changed.
    fn update_library(&mut self, id: &i32, name: &str, address: &str, manager_id: &i32) -> (updated: Result<usize, RepoError>)
        requires
            old(self).valid(),
        ensures
            final(self).valid(),
            old(self).updates_library(
                *id as int,
                name@,
                address@,
                *manager_id as int,
                final(self).content(),
                updated,
            ),
    ;

    /// What `delete_library` gives and leaves behind, where an implementation says it.
    open spec fn deletes_library(
        &self,
        id: int,
        after: StoreState,
        deleted: Result<usize, RepoError>,
    ) -> bool {
        true
    }

    /// Closes a library; gives the number of rows deleted.
    fn delete_library(&mut self, id: &i32) -> (deleted: Result<usize, RepoError>)
        requires
            old(self).valid(),
        ensures
            final(self).valid(),
            old(self).deletes_library(
                *id as int,
                final(self).content(),
                deleted,
            ),
    ;

    /// What `add_book` gives and leaves behind, where an implementation says it.
    open spec fn adds_book(
        &self,
        library_id: int,
        book_id: int,
        after: StoreState,
        added: Result<usize, RepoError>,
    ) -> bool {
        true
    }

    /// Enters one copy of a title in the library's holdings.
    fn add_book(&mut self, library_id: &i32, book_id: &i32) -> (added: Result<usize, RepoError>)
        requires
            old(self).valid(),
        ensures
            final(self).valid(),
            old(self).adds_book(
                *library_id as int,
                *book_id as int,
                final(self).content(),
                added,
            ),
    ;

    /// What `add_book_quantity` gives and leaves behind, where an implementation says it.
    open spec fn sets_quantity(
        &self,
        library_id: int,
        book_id: int,
        quantity: int,
        after: StoreState,
        updated: Result<usize, RepoError>,
    ) -> bool {
        true
    }

    /// Sets the number of copies that the library holds of a title.
    fn add_book_quantity(&mut self, library_id: &i32, book_id: &i32, quantity: &i32) -> (updated: Result<usize, RepoError>)
        requires
            old(self).valid(),
        ensures
            final(self).valid(),
            old(self).sets_quantity(
                *library_id as int,
                *book_id as int,
                *quantity as int,
                final(self).content(),
                updated,
            ),
    ;
}

pub trait MemberRepositoryTrait {
    /// What must hold of the repository between two operations. An
    /// implementation with an invariant of its own states it here.
    open spec fn valid(&self) -> bool {
        true
    }

    /// The rows that the repository keeps, where an implementation says
    /// what they are.
    open spec fn content(&self) -> StoreState {
        StoreState::empty()
    }

    /// What `create_member` gives and leaves behind, where an implementation says it.
    open spec fn creates_member(
        &self,
        name: Seq<char>,
        email: Seq<char>,
        after: StoreState,
        created: Result<i32, RepoError>,
    ) -> bool {
        true
    }

    /// Enrols a member; gives the member's id.
    fn create_member(&mut self, name: &str, email: &str) -> (created: Result<i32, RepoError>)
        requires
            old(self).valid(),
        ensures
            final(self).valid(),
            old(self).creates_member(
                name@,
                email@,
                final(self).content(),
                created,
            ),
    ;

    /// What `get_members` gives and leaves behind, where an implementation says it.
    open spec fn lists_members(
        &self,
        after: StoreState,
        found: Result<Vec<Member>, RepoError>,
    ) -> bool {
        true
    }

    /// All members.
    fn get_members(&mut self) -> (found: Result<Vec<Member>, RepoError>)
        requires
            old(self).valid(),
        ensures
            final(self).valid(),
            old(self).lists_members(
                final(self).content(),
                found,
            ),
    ;

    /// What `get_member_by_id` gives and leaves behind, where an implementation says it.
    open spec fn finds_member(
        &self,
        id: int,
        after: StoreState,
        found: Result<Member, RepoError>,
    ) -> bool {
        true
    }

    /// The member with this id.
    fn get_member_by_id(&mut self, id: &i32) -> (found: Result<Member, RepoError>)
        requires
            old(self).valid(),
        ensures
            final(self).valid(),
            old(self).finds_member(
                *id as int,
                final(self).content(),
                found,
            ),
    ;

    /// What `update_member` gives and leaves behind, where an implementation says it.
    open spec fn updates_member(
        &self,
        id: int,
        name: Seq<char>,
        email: Seq<char>,
        after: StoreState,
        updated: Result<usize, RepoError>,
    ) -> bool {
        true
    }

    /// Changes a member's name and email; gives the number of rows changed.
    fn update_member(&mut self, id: &i32, name: &str, email: &str) -> (updated: Result<usize, RepoError>)
        requires
            old(self).valid(),
        ensures
            final(self).valid(),
            old(self).updates_member(
                *id as int,
                name@,
                email@,
                final(self).content(),
                updated,
            ),
    ;

    /// What `delete_member` gives and leaves behind, where an implementation says it.
    open spec fn deletes_member(
        &self,
        id: int,
        after: StoreState,
        deleted: Result<usize, RepoError>,
    ) -> bool {
        true
    }

    /// Strikes a member; gives the number of rows deleted.
    fn delete_member(&mut self, id: &i32) -> (deleted: Result<usize, RepoError>)
        requires
            old(self).valid(),
        ensures
            final(self).valid(),
            old(self).deletes_member(
                *id as int,
                final(self).content(),
                deleted,
            ),
    ;

    /// What `get_members_by_library_id` gives and leaves behind, where an implementation says it.
    open spec fn lists_members_of_library(
        &self,
        library_id: int,
        after: StoreState,
        found: Result<Vec<Member>, RepoError>,
    ) -> bool {
        true
    }

    /// The members on the library's roster.
    fn get_members_by_library_id(&mut self, library_id: &i32) -> (found: Result<Vec<Member>, RepoError>)
        requires
            old(self).valid(),
        ensures
            final(self).valid(),
            old(self).lists_members_of_library(
                *library_id as int,
                final(self).content(),
                found,
            ),
    ;

    /// What `borrow_book` gives and leaves behind, where an implementation says it.
    open spec fn borrows_book(
        &self,
        member_id: int,
        book_id: int,
        after: StoreState,
        borrowed: Result<usize, RepoError>,
    ) -> bool {
        true
    }

    /// Enters a loan in the ledger.
    fn borrow_book(&mut self, member_id: &i32, book_id: &i32) -> (borrowed: Result<usize, RepoError>)
        requires
            old(self).valid(),
        ensures
            final(self).valid(),
            old(self).borrows_book(
                *member_id as int,
                *book_id as int,
                final(self).content(),
                borrowed,
            ),
    ;

    /// What `return_book` gives and leaves behind, where an implementation says it.
    open spec fn returns_book(
        &self,
        member_id: int,
        book_id: int,
        after: StoreState,
        returned: Result<usize, RepoError>,
    ) -> bool {
        true
    }

    /// Strikes a loan from the ledger; gives the number of rows deleted.
    fn return_book(&mut self, member_id: &i32, book_id: &i32) -> (returned: Result<usize, RepoError>)
        requires
            old(self).valid(),
        ensures
            final(self).valid(),
            old(self).returns_book(
                *member_id as int,
                *book_id as int,
                final(self).content(),
                returned,
            ),
    ;

    /// What `get_borrowed_books` gives and leaves behind, where an implementation says it.
    open spec fn lists_borrowed_books(
        &self,
        member_id: int,
        library_id: Option<i32>,
        after: StoreState,
        found: Result<Vec<Book>, RepoError>,
    ) -> bool {
        true
    }

    /// The books that the member holds: all of them, or those of which
    /// `library_id` holds copies.
    fn get_borrowed_books(&mut self, member_id: &i32, library_id: Option<i32>) -> (found: Result<Vec<Book>, RepoError>)
        requires
            old(self).valid(),
        ensures
            final(self).valid(),
            old(self).lists_borrowed_books(
                *member_id as int,
                library_id,
                final(self).content(),
                found,
            ),
    ;
}

} // verus!
