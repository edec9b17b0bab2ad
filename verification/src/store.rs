//! The store itself: the six relations held in memory.

use crate::models::book::{book_rows, holding_rows, loan_rows, Book, BorrowedBook, LibraryBook};
use crate::models::library::{library_rows, roster_rows, Library, LibraryMember};
use crate::models::member::{member_rows, Member};
use crate::schema::Relation;
use crate::state::{id_listed, StoreState};
use vstd::prelude::*;

verus! {

/// A relational store with the six relations of a lending library. Every
/// operation takes the store by `&mut`, so that one caller at a time works on
/// it: a statement never sees another one half done.
pub struct Store {
    pub(crate) schema: Vec<Relation>,
    pub(crate) members: Vec<Member>,
    pub(crate) libraries: Vec<Library>,
    pub(crate) books: Vec<Book>,
    pub(crate) library_books: Vec<LibraryBook>,
    pub(crate) library_members: Vec<LibraryMember>,
    pub(crate) borrowed_books: Vec<BorrowedBook>,
    pub(crate) last_member_id: i32,
    pub(crate) last_library_id: i32,
    pub(crate) last_book_id: i32,
}

impl Store {
    /// What the store holds.
    pub open(crate) spec fn view(&self) -> StoreState {
        StoreState {
            schema: self.schema@,
            members: member_rows(self.members@),
            libraries: library_rows(self.libraries@),
            books: book_rows(self.books@),
            library_books: holding_rows(self.library_books@),
            library_members: roster_rows(self.library_members@),
            borrowed_books: loan_rows(self.borrowed_books@),
            last_member_id: self.last_member_id as int,
            last_library_id: self.last_library_id as int,
            last_book_id: self.last_book_id as int,
        }
    }

    /// The store's invariant, which `new` establishes and every operation keeps.
    pub open spec fn wf(&self) -> bool {
        self@.wf()
    }

    /// A store without relations: `create_tables` has yet to run on it.
    pub fn new() -> (store: Store)
        ensures
            store.wf(),
            store@ == StoreState::empty(),
    {
        let store = Store {
            schema: Vec::new(),
            members: Vec::new(),
            libraries: Vec::new(),
            books: Vec::new(),
            library_books: Vec::new(),
            library_members: Vec::new(),
            borrowed_books: Vec::new(),
            last_member_id: 0,
            last_library_id: 0,
            last_book_id: 0,
        };
        assert(store@.members =~= Seq::empty());
        assert(store@.libraries =~= Seq::empty());
        assert(store@.books =~= Seq::empty());
        assert(store@.library_books =~= Seq::empty());
        assert(store@.library_members =~= Seq::empty());
        assert(store@.borrowed_books =~= Seq::empty());
        store
    }
}

impl Store {
    /// Whether `relation` was created.
    pub fn has_relation(&self, relation: Relation) -> (found: bool)
        ensures
            found == self@.schema.contains(relation),
    {
        let mut i: usize = 0;
        while i < self.schema.len()
            invariant
                i <= self.schema.len(),
                forall|k: int| 0 <= k < i ==> self.schema@[k] != relation,
            decreases self.schema.len() - i,
        {
            if self.schema[i] == relation {
                return true;
            }
            i += 1;
        }
        false
    }

    /// Creates `relation` where it does not exist. Rows are not touched.
    pub fn create_relation(&mut self, relation: Relation)
        requires
            old(self).wf(),
        ensures
            final(self).wf(),
            final(self)@ == old(self)@.with_relation(relation),
    {
        if !self.has_relation(relation) {
            self.schema.push(relation);
            proof {
                old(self)@.lemma_with_relation_wf(relation);
            }
        }
    }

    /// Whether all six relations were created.
    pub fn is_ready(&self) -> (ready: bool)
        ensures
            ready == self@.ready(),
    {
        self.has_relation(Relation::Members) && self.has_relation(Relation::Library)
            && self.has_relation(Relation::Books) && self.has_relation(Relation::LibraryBooks)
            && self.has_relation(Relation::LibraryMembers) && self.has_relation(
            Relation::BorrowedBooks,
        )
    }

    /// Where the member with this id stands, if there is one.
    pub(crate) fn member_position(&self, id: i32) -> (at: Option<usize>)
        requires
            self.wf(),
        ensures
            at is Some == self@.has_member(id as int),
            at matches Some(i) ==> i < self.members.len() && self.members[i as int].id == id && i
                == self@.member_index(id as int),
    {
        let mut i: usize = 0;
        while i < self.members.len()
            invariant
                i <= self.members.len(),
                self.wf(),
                forall|k: int| 0 <= k < i ==> (#[trigger] self@.members[k]).id != id,
            decreases self.members.len() - i,
        {
            if self.members[i].id == id {
                assert(self@.members[i as int].id == id);
                return Some(i);
            }
            i += 1;
        }
        None
    }

    /// Where the library with this id stands, if there is one.
    pub(crate) fn library_position(&self, id: i32) -> (at: Option<usize>)
        requires
            self.wf(),
        ensures
            at is Some == self@.has_library(id as int),
            at matches Some(i) ==> i < self.libraries.len() && self.libraries[i as int].id == id
                && i == self@.library_index(id as int),
    {
        let mut i: usize = 0;
        while i < self.libraries.len()
            invariant
                i <= self.libraries.len(),
                self.wf(),
                forall|k: int| 0 <= k < i ==> (#[trigger] self@.libraries[k]).id != id,
            decreases self.libraries.len() - i,
        {
            if self.libraries[i].id == id {
                assert(self@.libraries[i as int].id == id);
                return Some(i);
            }
            i += 1;
        }
        None
    }

    /// Where the book with this id stands, if there is one.
    pub(crate) fn book_position(&self, id: i32) -> (at: Option<usize>)
        requires
            self.wf(),
        ensures
            at is Some == self@.has_book(id as int),
            at matches Some(i) ==> i < self.books.len() && self.books[i as int].id == id && i
                == self@.book_index(id as int),
    {
        let mut i: usize = 0;
        while i < self.books.len()
            invariant
                i <= self.books.len(),
                self.wf(),
                forall|k: int| 0 <= k < i ==> (#[trigger] self@.books[k]).id != id,
            decreases self.books.len() - i,
        {
            if self.books[i].id == id {
                assert(self@.books[i as int].id == id);
                return Some(i);
            }
            i += 1;
        }
        None
    }

    /// Where the holding of this title by this library stands, if there is one.
    pub(crate) fn holding_position(&self, library_id: i32, book_id: i32) -> (at: Option<usize>)
        requires
            self.wf(),
        ensures
            at is Some == self@.holds(library_id as int, book_id as int),
            at matches Some(i) ==> i < self.library_books.len() && self.library_books[i as int].library_id
                == library_id && self.library_books[i as int].book_id == book_id && i
                == self@.holding_index(library_id as int, book_id as int),
    {
        let mut i: usize = 0;
        while i < self.library_books.len()
            invariant
                i <= self.library_books.len(),
                self.wf(),
                forall|k: int|
                    0 <= k < i ==> !((#[trigger] self@.library_books[k]).library_id == library_id
                        && self@.library_books[k].book_id == book_id),
            decreases self.library_books.len() - i,
        {
            if self.library_books[i].library_id == library_id && self.library_books[i].book_id
                == book_id {
                assert(self@.library_books[i as int].library_id == library_id);
                return Some(i);
            }
            i += 1;
        }
        None
    }

    /// Where the loan of this book to this member stands, if there is one.
    pub(crate) fn loan_position(&self, member_id: i32, book_id: i32) -> (at: Option<usize>)
        requires
            self.wf(),
        ensures
            at is Some == self@.on_loan(member_id as int, book_id as int),
            at matches Some(i) ==> i < self.borrowed_books.len() && self.borrowed_books[i as int].member_id
                == member_id && self.borrowed_books[i as int].book_id == book_id && i
                == self@.loan_index(member_id as int, book_id as int),
    {
        let mut i: usize = 0;
        while i < self.borrowed_books.len()
            invariant
                i <= self.borrowed_books.len(),
                self.wf(),
                forall|k: int|
                    0 <= k < i ==> !((#[trigger] self@.borrowed_books[k]).member_id == member_id
                        && self@.borrowed_books[k].book_id == book_id),
            decreases self.borrowed_books.len() - i,
        {
            if self.borrowed_books[i].member_id == member_id && self.borrowed_books[i].book_id
                == book_id {
                assert(self@.borrowed_books[i as int].member_id == member_id);
                return Some(i);
            }
            i += 1;
        }
        None
    }

    /// The holding of this title by this library, if there is one.
    pub fn holding(&self, library_id: i32, book_id: i32) -> (found: Option<LibraryBook>)
        requires
            self.wf(),
        ensures
            found is Some == self@.holds(library_id as int, book_id as int),
            found matches Some(row) ==> row.library_id == library_id && row.book_id == book_id
                && row.quantity == self@.quantity(library_id as int, book_id as int),
    {
        match self.holding_position(library_id, book_id) {
            None => None,
            Some(i) => Some(self.library_books[i]),
        }
    }

    /// When the member took the book, if the member holds it.
    pub fn borrowed_at(&self, member_id: i32, book_id: i32) -> (found: Option<String>)
        requires
            self.wf(),
        ensures
            found is Some == self@.on_loan(member_id as int, book_id as int),
            found matches Some(time) ==> time@ == self@.borrowed_books[self@.loan_index(
                member_id as int,
                book_id as int,
            )].borrowed_at,
    {
        match self.loan_position(member_id, book_id) {
            None => None,
            Some(i) => Some(self.borrowed_books[i].borrowed_at.clone()),
        }
    }
}

/// Whether the id stands in the list.
pub(crate) fn list_has(ids: &Vec<i32>, id: i32) -> (listed: bool)
    ensures
        listed == id_listed(ids@, id as int),
{
    let mut k: usize = 0;
    while k < ids.len()
        invariant
            k <= ids.len(),
            forall|j: int| 0 <= j < k ==> ids@[j] != id,
        decreases ids.len() - k,
    {
        if ids[k] == id {
            return true;
        }
        k += 1;
    }
    false
}

} // verus!
