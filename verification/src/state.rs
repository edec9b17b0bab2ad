//! The store as a mathematical value: six relations as sequences of rows,
//! the ids that were given out, and what each statement makes of them.

use crate::error::RepoError;
use crate::models::book::{BookRow, HoldingRow, LoanRow};
use crate::models::library::{LibraryRow, RosterRow};
use crate::models::member::MemberRow;
use crate::schema::Relation;
use vstd::prelude::*;

verus! {

/// The content of a store. Rows stand in the order in which they were
/// inserted; `last_*_id` is the highest id that the relation ever gave out,
/// 0 where it gave none.
pub struct StoreState {
    pub schema: Seq<Relation>,
    pub members: Seq<MemberRow>,
    pub libraries: Seq<LibraryRow>,
    pub books: Seq<BookRow>,
    pub library_books: Seq<HoldingRow>,
    pub library_members: Seq<RosterRow>,
    pub borrowed_books: Seq<LoanRow>,
    pub last_member_id: int,
    pub last_library_id: int,
    pub last_book_id: int,
}

impl StoreState {
    /// A store without relations and without rows.
    pub open spec fn empty() -> StoreState {
        StoreState {
            schema: Seq::empty(),
            members: Seq::empty(),
            libraries: Seq::empty(),
            books: Seq::empty(),
            library_books: Seq::empty(),
            library_members: Seq::empty(),
            borrowed_books: Seq::empty(),
            last_member_id: 0,
            last_library_id: 0,
            last_book_id: 0,
        }
    }

    // ------------------------------------------------------------------
    // Schema
    // ------------------------------------------------------------------
    /// All six relations exist.
    pub open spec fn ready(self) -> bool {
        &&& self.schema.contains(Relation::Members)
        &&& self.schema.contains(Relation::Library)
        &&& self.schema.contains(Relation::Books)
        &&& self.schema.contains(Relation::LibraryBooks)
        &&& self.schema.contains(Relation::LibraryMembers)
        &&& self.schema.contains(Relation::BorrowedBooks)
    }

    /// What a statement fails with before it looks at any row.
    pub open spec fn schema_fault(self) -> Option<RepoError> {
        if self.ready() {
            None
        } else {
            Some(RepoError::TransactionFailure)
        }
    }

    /// The store after `CREATE TABLE IF NOT EXISTS` for `relation`.
    pub open spec fn with_relation(self, relation: Relation) -> StoreState {
        if self.schema.contains(relation) {
            self
        } else {
            StoreState { schema: self.schema.push(relation), ..self }
        }
    }

    /// The store after the six relations were created in dependency order,
    /// each one only where it was missing.
    pub open spec fn with_schema(self) -> StoreState {
        self.with_relation(Relation::Members).with_relation(Relation::Library).with_relation(
            Relation::Books,
        ).with_relation(Relation::LibraryBooks).with_relation(
            Relation::LibraryMembers,
        ).with_relation(Relation::BorrowedBooks)
    }

    /// Creating a relation keeps the store valid; the relation then exists,
    /// and so does every relation that existed.
    pub proof fn lemma_with_relation_wf(self, relation: Relation)
        requires
            self.wf(),
        ensures
            self.with_relation(relation).wf(),
            self.with_relation(relation).schema.contains(relation),
            forall|r: Relation|
                self.schema.contains(r) ==> self.with_relation(relation).schema.contains(r),
            forall|r: Relation|
                self.with_relation(relation).schema.contains(r) ==> r == relation
                    || self.schema.contains(r),
    {
        let next = self.with_relation(relation);
        if !self.schema.contains(relation) {
            let n = self.schema.len() as int;
            assert(next.schema[n] == relation);
            assert forall|i: int, j: int|
                0 <= i < next.schema.len() && 0 <= j < next.schema.len() && i
                    != j implies next.schema[i] != next.schema[j] by {
                if i < n {
                    assert(next.schema[i] == self.schema[i]);
                    assert(self.schema.contains(self.schema[i]));
                }
                if j < n {
                    assert(next.schema[j] == self.schema[j]);
                    assert(self.schema.contains(self.schema[j]));
                }
            }
            assert forall|r: Relation| self.schema.contains(r) implies next.schema.contains(
                r,
            ) by {
                let i = choose|i: int| 0 <= i < self.schema.len() && self.schema[i] == r;
                assert(next.schema[i] == r);
            }
            assert forall|r: Relation| next.schema.contains(r) implies r == relation
                || self.schema.contains(r) by {
                let i = choose|i: int| 0 <= i < next.schema.len() && next.schema[i] == r;
                if i < n {
                    assert(self.schema[i] == r);
                }
            }
            assert(next.entities_wf());
            assert(next.joins_wf());
        }
    }

    /// Creating the schema keeps the store valid and its rows, and makes it
    /// ready; on a store that is ready it changes nothing.
    pub proof fn lemma_with_schema(self)
        requires
            self.wf(),
        ensures
            self.with_schema().wf(),
            self.with_schema().ready(),
            self.with_schema() == (StoreState { schema: self.with_schema().schema, ..self }),
            self.ready() ==> self.with_schema() == self,
            forall|r: Relation| self.schema.contains(r) ==> self.with_schema().schema.contains(r),
    {
        let s1 = self.with_relation(Relation::Members);
        self.lemma_with_relation_wf(Relation::Members);
        let s2 = s1.with_relation(Relation::Library);
        s1.lemma_with_relation_wf(Relation::Library);
        let s3 = s2.with_relation(Relation::Books);
        s2.lemma_with_relation_wf(Relation::Books);
        let s4 = s3.with_relation(Relation::LibraryBooks);
        s3.lemma_with_relation_wf(Relation::LibraryBooks);
        let s5 = s4.with_relation(Relation::LibraryMembers);
        s4.lemma_with_relation_wf(Relation::LibraryMembers);
        let s6 = s5.with_relation(Relation::BorrowedBooks);
        s5.lemma_with_relation_wf(Relation::BorrowedBooks);
        assert(s6 == self.with_schema());
    }

    // ------------------------------------------------------------------
    // Lookups
    // ------------------------------------------------------------------
    /// A member has this id.
    pub open spec fn has_member(self, id: int) -> bool {
        exists|i: int| 0 <= i < self.members.len() && (#[trigger] self.members[i]).id == id
    }

    /// Where the member with this id stands.
    pub open spec fn member_index(self, id: int) -> int {
        choose|i: int| 0 <= i < self.members.len() && (#[trigger] self.members[i]).id == id
    }

    /// The member with this id.
    pub open spec fn member(self, id: int) -> MemberRow {
        self.members[self.member_index(id)]
    }

    /// A library has this id.
    pub open spec fn has_library(self, id: int) -> bool {
        exists|i: int| 0 <= i < self.libraries.len() && (#[trigger] self.libraries[i]).id == id
    }

    /// Where the library with this id stands.
    pub open spec fn library_index(self, id: int) -> int {
        choose|i: int| 0 <= i < self.libraries.len() && (#[trigger] self.libraries[i]).id == id
    }

    /// The library with this id.
    pub open spec fn library(self, id: int) -> LibraryRow {
        self.libraries[self.library_index(id)]
    }

    /// A book has this id.
    pub open spec fn has_book(self, id: int) -> bool {
        exists|i: int| 0 <= i < self.books.len() && (#[trigger] self.books[i]).id == id
    }

    /// Where the book with this id stands.
    pub open spec fn book_index(self, id: int) -> int {
        choose|i: int| 0 <= i < self.books.len() && (#[trigger] self.books[i]).id == id
    }

    /// The book with this id.
    pub open spec fn book(self, id: int) -> BookRow {
        self.books[self.book_index(id)]
    }

    /// The library holds the title: the holdings relation has the pair.
    pub open spec fn holds(self, library_id: int, book_id: int) -> bool {
        exists|i: int|
            0 <= i < self.library_books.len() && (#[trigger] self.library_books[i]).library_id
                == library_id && self.library_books[i].book_id == book_id
    }

    /// Where the holding of this pair stands.
    pub open spec fn holding_index(self, library_id: int, book_id: int) -> int {
        choose|i: int|
            0 <= i < self.library_books.len() && (#[trigger] self.library_books[i]).library_id
                == library_id && self.library_books[i].book_id == book_id
    }

    /// How many copies of the title the library holds, by the holdings relation.
    pub open spec fn quantity(self, library_id: int, book_id: int) -> int {
        self.library_books[self.holding_index(library_id, book_id)].quantity
    }

    /// The member is on the library's roster.
    pub open spec fn enrolled(self, library_id: int, member_id: int) -> bool {
        exists|i: int|
            0 <= i < self.library_members.len() && (#[trigger] self.library_members[i]).library_id
                == library_id && self.library_members[i].member_id == member_id
    }

    /// The member holds the book: the ledger has the pair.
    pub open spec fn on_loan(self, member_id: int, book_id: int) -> bool {
        exists|i: int|
            0 <= i < self.borrowed_books.len() && (#[trigger] self.borrowed_books[i]).member_id
                == member_id && self.borrowed_books[i].book_id == book_id
    }

    /// Where the loan of this pair stands.
    pub open spec fn loan_index(self, member_id: int, book_id: int) -> int {
        choose|i: int|
            0 <= i < self.borrowed_books.len() && (#[trigger] self.borrowed_books[i]).member_id
                == member_id && self.borrowed_books[i].book_id == book_id
    }

    // ------------------------------------------------------------------
    // Validity
    // ------------------------------------------------------------------
    /// Ids rise along each of the three entity relations and were all given
    /// out by it.
    pub open spec fn entities_wf(self) -> bool {
        &&& 0 <= self.last_member_id <= i32::MAX
        &&& 0 <= self.last_library_id <= i32::MAX
        &&& 0 <= self.last_book_id <= i32::MAX
        &&& forall|i: int|
            0 <= i < self.members.len() ==> 1 <= (#[trigger] self.members[i]).id
                <= self.last_member_id
        &&& forall|i: int, j: int|
            0 <= i < j < self.members.len() ==> (#[trigger] self.members[i]).id < (
            #[trigger] self.members[j]).id
        &&& forall|i: int|
            0 <= i < self.libraries.len() ==> 1 <= (#[trigger] self.libraries[i]).id
                <= self.last_library_id
        &&& forall|i: int, j: int|
            0 <= i < j < self.libraries.len() ==> (#[trigger] self.libraries[i]).id < (
            #[trigger] self.libraries[j]).id
        &&& forall|i: int|
            0 <= i < self.libraries.len() ==> 1 <= (#[trigger] self.libraries[i]).manager_id
                <= self.last_member_id
        &&& forall|i: int|
            0 <= i < self.books.len() ==> 1 <= (#[trigger] self.books[i]).id <= self.last_book_id
        &&& forall|i: int, j: int|
            0 <= i < j < self.books.len() ==> (#[trigger] self.books[i]).id < (
            #[trigger] self.books[j]).id
    }

    /// No pair stands twice in the holdings or in the ledger, and each row of
    /// them refers to ids that were given out. The roster has no rows: no
    /// operation enters anybody on it.
    pub open spec fn joins_wf(self) -> bool {
        &&& forall|i: int|
            0 <= i < self.library_books.len() ==> {
                &&& 1 <= (#[trigger] self.library_books[i]).library_id <= self.last_library_id
                &&& 1 <= self.library_books[i].book_id <= self.last_book_id
            }
        &&& forall|i: int, j: int|
            0 <= i < j < self.library_books.len() ==> !((
            #[trigger] self.library_books[i]).library_id == (
            #[trigger] self.library_books[j]).library_id && self.library_books[i].book_id
                == self.library_books[j].book_id)
        &&& self.library_members.len() == 0
        &&& forall|i: int|
            0 <= i < self.borrowed_books.len() ==> {
                &&& 1 <= (#[trigger] self.borrowed_books[i]).member_id <= self.last_member_id
                &&& 1 <= self.borrowed_books[i].book_id <= self.last_book_id
            }
        &&& forall|i: int, j: int|
            0 <= i < j < self.borrowed_books.len() ==> !((
            #[trigger] self.borrowed_books[i]).member_id == (
            #[trigger] self.borrowed_books[j]).member_id && self.borrowed_books[i].book_id
                == self.borrowed_books[j].book_id)
    }

    /// What holds of every store that this library made.
    pub open spec fn wf(self) -> bool {
        &&& self.schema.no_duplicates()
        &&& self.entities_wf()
        &&& self.joins_wf()
    }
}

/// The id stands in the list.
pub open spec fn id_listed(ids: Seq<i32>, id: int) -> bool {
    exists|k: int| 0 <= k < ids.len() && #[trigger] ids[k] == id
}

} // verus!
