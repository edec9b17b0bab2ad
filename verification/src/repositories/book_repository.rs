//! The catalog: books, and the holding that comes with each new book.

use crate::error::RepoError;
use crate::clock::utc_timestamp;
use crate::models::book::{book_rows, Book, BookRow, NewBook, NewLibraryBook};
use crate::sequences::lemma_filter_agree;
use crate::state::{id_listed, StoreState};
use crate::traits::BookRepositoryTrait;
use crate::store::{list_has, Store};
use vstd::prelude::*;

verus! {

impl StoreState {
    /// Why a book cannot be inserted: the schema is missing, or the ids have
    /// run out.
    pub open spec fn insert_book_fault(self) -> Option<RepoError> {
        if !self.ready() {
            Some(RepoError::TransactionFailure)
        } else if self.last_book_id >= i32::MAX {
            Some(RepoError::TransactionFailure)
        } else {
            None
        }
    }

    /// The store with one more book, under the next id.
    pub open spec fn with_book(
        self,
        title: Seq<char>,
        author: Seq<char>,
        created_at: Seq<char>,
        updated_at: Seq<char>,
    ) -> StoreState {
        StoreState {
            books: self.books.push(
                BookRow { id: self.last_book_id + 1, title, author, created_at, updated_at },
            ),
            last_book_id: self.last_book_id + 1,
            ..self
        }
    }

    /// The highest id in the catalog, or why there is none.
    pub open spec fn highest_book(self) -> Result<int, RepoError> {
        if !self.ready() {
            Err(RepoError::TransactionFailure)
        } else if self.books.len() == 0 {
            Err(RepoError::NotFound)
        } else {
            Ok(self.books.last().id)
        }
    }
}

impl StoreState {
    /// A book under the next id keeps the store valid and is then in the
    /// catalog; no book had the id before.
    pub proof fn lemma_with_book_wf(
        self,
        title: Seq<char>,
        author: Seq<char>,
        created_at: Seq<char>,
        updated_at: Seq<char>,
    )
        requires
            self.wf(),
            self.last_book_id < i32::MAX,
        ensures
            self.with_book(title, author, created_at, updated_at).wf(),
            self.with_book(title, author, created_at, updated_at).has_book(self.last_book_id + 1),
            !self.has_book(self.last_book_id + 1),
    {
        let next = self.with_book(title, author, created_at, updated_at);
        assert(next.books[self.books.len() as int].id == self.last_book_id + 1);
        assert forall|i: int| 0 <= i < next.books.len() implies 1 <= (#[trigger] next.books[i]).id
            <= next.last_book_id by {
            if i < self.books.len() {
                assert(next.books[i] == self.books[i]);
            }
        }
        assert forall|i: int, j: int| 0 <= i < j < next.books.len() implies (
        #[trigger] next.books[i]).id < (#[trigger] next.books[j]).id by {
            assert(next.books[i] == self.books[i]);
            if j < self.books.len() {
                assert(next.books[j] == self.books[j]);
            }
        }
        assert(next.entities_wf());
        assert(next.joins_wf());
    }
}

impl Store {
    /// Inserts one row into the catalog and gives the number of rows
    /// inserted. The store picks the id: one more than the last that it gave
    /// out.
    pub fn insert_book(&mut self, row: &NewBook) -> (inserted: Result<usize, RepoError>)
        requires
            old(self).wf(),
        ensures
            final(self).wf(),
            match old(self)@.insert_book_fault() {
                Some(e) => inserted == Err::<usize, RepoError>(e) && final(self)@ == old(self)@,
                None => inserted == Ok::<usize, RepoError>(1) && final(self)@ == old(
                    self,
                )@.with_book(row.title@, row.author@, row.created_at@, row.updated_at@),
            },
    {
        if !self.is_ready() {
            return Err(RepoError::TransactionFailure);
        }
        if self.last_book_id == i32::MAX {
            return Err(RepoError::TransactionFailure);
        }
        let id: i32 = self.last_book_id + 1;
        let book = Book {
            id,
            title: row.title.to_owned(),
            author: row.author.to_owned(),
            created_at: row.created_at.to_owned(),
            updated_at: row.updated_at.to_owned(),
        };
        self.books.push(book);
        self.last_book_id = id;
        proof {
            assert(self@.books =~= old(self)@.books.push(book@));
            old(self)@.lemma_with_book_wf(row.title@, row.author@, row.created_at@, row.updated_at@);
        }
        Ok(1)
    }

    /// The highest id in the catalog.
    pub fn highest_book_id(&self) -> (highest: Result<i32, RepoError>)
        requires
            self.wf(),
        ensures
            match self@.highest_book() {
                Ok(id) => highest == Ok::<i32, RepoError>(id as i32),
                Err(e) => highest == Err::<i32, RepoError>(e),
            },
            highest matches Ok(id) ==> self@.has_book(id as int) && forall|i: int|
                0 <= i < self@.books.len() ==> (#[trigger] self@.books[i]).id <= id,
    {
        if !self.is_ready() {
            return Err(RepoError::TransactionFailure);
        }
        let n = self.books.len();
        if n == 0 {
            return Err(RepoError::NotFound);
        }
        let id = self.books[n - 1].id;
        proof {
            assert(self@.books[n - 1].id == id);
        }
        Ok(id)
    }
}

impl StoreState {
    /// Why a book cannot be created for a library: the schema is missing,
    /// the ids have run out, or the library is not there. Ids that have run
    /// out are found before the library is looked for.
    pub open spec fn create_book_fault(self, library_id: int) -> Option<RepoError> {
        if !self.ready() {
            Some(RepoError::TransactionFailure)
        } else if self.last_book_id >= i32::MAX {
            Some(RepoError::TransactionFailure)
        } else if !self.has_library(library_id) {
            Some(RepoError::ConstraintViolation)
        } else {
            None
        }
    }

    /// The store with one more book, both of its timestamps `now`, and one
    /// copy of it in the library's holdings.
    pub open spec fn with_new_book(
        self,
        title: Seq<char>,
        author: Seq<char>,
        library_id: int,
        now: Seq<char>,
    ) -> StoreState {
        self.with_book(title, author, now, now).with_holding(library_id, self.last_book_id + 1, 1)
    }

    /// What the second statement of a creation meets after the first: the
    /// new book is there and nobody holds it yet, so only a missing library
    /// can stop the holding.
    pub proof fn lemma_holding_after_book(
        self,
        title: Seq<char>,
        author: Seq<char>,
        library_id: int,
        now: Seq<char>,
    )
        requires
            self.wf(),
            self.insert_book_fault() is None,
        ensures
            self.with_book(title, author, now, now).insert_holding_fault(
                library_id,
                self.last_book_id + 1,
            ) == self.create_book_fault(library_id),
            self.with_book(title, author, now, now).highest_book() == Ok::<int, RepoError>(
                self.last_book_id + 1,
            ),
    {
        let next = self.with_book(title, author, now, now);
        self.lemma_with_book_wf(title, author, now, now);
        assert(next.libraries == self.libraries);
        assert(next.has_library(library_id) == self.has_library(library_id));
        assert(next.books.last().id == self.last_book_id + 1);
    }
}

impl Store {
    /// Takes back the last insertion into the catalog.
    fn undo_insert_book(&mut self)
        requires
            old(self)@.books.len() > 0,
            old(self)@.last_book_id > 0,
        ensures
            final(self)@ == (StoreState {
                books: old(self)@.books.drop_last(),
                last_book_id: old(self)@.last_book_id - 1,
                ..old(self)@
            }),
    {
        let restored: i32 = self.last_book_id - 1;
        self.books.pop();
        self.last_book_id = restored;
        proof {
            assert(self@.books =~= old(self)@.books.drop_last());
        }
    }

    /// Creates a book as `create_book` does, with `now` for the time.
    ///
    /// Two statements in one transaction: the book is inserted, then one copy
    /// of it, under the highest id of the catalog, is entered in the
    /// library's holdings. Where the second fails the first is taken back.
    pub fn create_book_at(&mut self, title: &str, author: &str, library_id: &i32, now: &str) -> (created:
        Result<i32, RepoError>)
        requires
            old(self).wf(),
        ensures
            final(self).wf(),
            match old(self)@.create_book_fault(*library_id as int) {
                Some(e) => created == Err::<i32, RepoError>(e) && final(self)@ == old(self)@,
                None => created == Ok::<i32, RepoError>((old(self)@.last_book_id + 1) as i32)
                    && final(self)@ == old(self)@.with_new_book(
                    title@,
                    author@,
                    *library_id as int,
                    now@,
                ),
            },
    {
        let ghost before = self@;
        let new_book = NewBook { title, author, created_at: now, updated_at: now };
        match self.insert_book(&new_book) {
            Ok(_) => {},
            Err(e) => {
                return Err(e);
            },
        }
        proof {
            before.lemma_holding_after_book(title@, author@, *library_id as int, now@);
        }
        let book_id: i32 = match self.highest_book_id() {
            Ok(id) => id,
            Err(e) => {
                self.undo_insert_book();
                return Err(e);
            },
        };
        let one: i32 = 1;
        let new_library_book = NewLibraryBook { book_id: &book_id, library_id, quantity: &one };
        match self.insert_library_book(&new_library_book) {
            Ok(_) => Ok(book_id),
            Err(e) => {
                self.undo_insert_book();
                proof {
                    assert(self@.books =~= before.books);
                }
                Err(e)
            },
        }
    }
}

impl StoreState {
    /// The store in which the book with this id, if there is one, has a new
    /// title and author. Its timestamps stay as they were.
    pub open spec fn with_book_renamed(self, id: int, title: Seq<char>, author: Seq<char>) -> StoreState {
        StoreState {
            books: Seq::new(
                self.books.len(),
                |i: int|
                    if self.books[i].id == id {
                        BookRow { title, author, ..self.books[i] }
                    } else {
                        self.books[i]
                    },
            ),
            ..self
        }
    }

    /// The store without the book with this id. Holdings and loans of the
    /// book stay where they are.
    pub open spec fn without_book(self, id: int) -> StoreState {
        if self.has_book(id) {
            StoreState { books: self.books.remove(self.book_index(id)), ..self }
        } else {
            self
        }
    }

    /// How many catalog rows have this id: one or none.
    pub open spec fn count_books(self, id: int) -> int {
        if self.has_book(id) {
            1
        } else {
            0
        }
    }

    /// The book with this id, or why it is not to be had.
    pub open spec fn find_book(self, id: int) -> Result<BookRow, RepoError> {
        if !self.ready() {
            Err(RepoError::TransactionFailure)
        } else if !self.has_book(id) {
            Err(RepoError::NotFound)
        } else {
            Ok(self.book(id))
        }
    }

    /// The books whose ids stand in the list, in catalog order.
    pub open spec fn books_among(self, ids: Seq<i32>) -> Seq<BookRow> {
        self.books.filter(|b: BookRow| id_listed(ids, b.id))
    }

    /// The books of which the library holds copies, in catalog order.
    pub open spec fn books_of_library(self, library_id: int) -> Seq<BookRow> {
        self.books.filter(|b: BookRow| self.holds(library_id, b.id))
    }

    /// Renaming keeps the store valid.
    pub proof fn lemma_with_book_renamed_wf(self, id: int, title: Seq<char>, author: Seq<char>)
        requires
            self.wf(),
        ensures
            self.with_book_renamed(id, title, author).wf(),
    {
        let next = self.with_book_renamed(id, title, author);
        assert forall|i: int| 0 <= i < next.books.len() implies 1 <= (#[trigger] next.books[i]).id
            <= next.last_book_id by {
            assert(next.books[i].id == self.books[i].id);
        }
        assert forall|i: int, j: int| 0 <= i < j < next.books.len() implies (
        #[trigger] next.books[i]).id < (#[trigger] next.books[j]).id by {
            assert(next.books[i].id == self.books[i].id);
            assert(next.books[j].id == self.books[j].id);
        }
        assert(next.entities_wf());
        assert(next.joins_wf());
    }

    /// Deleting a book keeps the store valid, and the book is gone.
    pub proof fn lemma_without_book_wf(self, id: int)
        requires
            self.wf(),
        ensures
            self.without_book(id).wf(),
            !self.without_book(id).has_book(id),
    {
        let next = self.without_book(id);
        if self.has_book(id) {
            let at = self.book_index(id);
            assert forall|i: int| 0 <= i < next.books.len() implies 1 <= (
            #[trigger] next.books[i]).id <= next.last_book_id && next.books[i].id != id by {
                if i < at {
                    assert(next.books[i] == self.books[i]);
                } else {
                    assert(next.books[i] == self.books[i + 1]);
                }
            }
            assert forall|i: int, j: int| 0 <= i < j < next.books.len() implies (
            #[trigger] next.books[i]).id < (#[trigger] next.books[j]).id by {
                let oi = if i < at { i } else { i + 1 };
                let oj = if j < at { j } else { j + 1 };
                assert(next.books[i] == self.books[oi]);
                assert(next.books[j] == self.books[oj]);
            }
            assert(next.entities_wf());
            assert(next.joins_wf());
        }
    }
}

impl Store {
    /// Copies of the books whose ids stand in the list, in catalog order.
    pub(crate) fn books_with_ids(&self, ids: &Vec<i32>) -> (found: Vec<Book>)
        ensures
            book_rows(found@) == self@.books_among(ids@),
    {
        let ghost keep = |b: BookRow| id_listed(ids@, b.id);
        let mut found: Vec<Book> = Vec::new();
        let mut i: usize = 0;
        proof {
            assert(self@.books.take(0) =~= Seq::empty());
            reveal(Seq::filter);
            assert(book_rows(found@) =~= self@.books.take(0).filter(keep));
        }
        while i < self.books.len()
            invariant
                i <= self.books.len(),
                keep == |b: BookRow| id_listed(ids@, b.id),
                book_rows(found@) == self@.books.take(i as int).filter(keep),
            decreases self.books.len() - i,
        {
            let listed = list_has(ids, self.books[i].id);
            proof {
                self@.books.lemma_take_succ_push(i as int);
                self@.books.take(i as int).lemma_filter_push(self@.books[i as int], keep);
                assert(self@.books[i as int] == self.books@[i as int]@);
                assert(listed == keep(self@.books[i as int]));
            }
            if listed {
                let copy = self.books[i].clone();
                let ghost earlier = found@;
                found.push(copy);
                proof {
                    assert(book_rows(found@) =~= book_rows(earlier).push(copy@));
                }
            }
            i += 1;
        }
        proof {
            assert(self@.books.take(i as int) =~= self@.books);
        }
        found
    }
}

impl Store {
    /// The ids of the books of which the library holds copies.
    pub(crate) fn held_book_ids(&self, library_id: i32) -> (ids: Vec<i32>)
        ensures
            forall|id: int| id_listed(ids@, id) <==> self@.holds(library_id as int, id),
    {
        let mut ids: Vec<i32> = Vec::new();
        let mut i: usize = 0;
        while i < self.library_books.len()
            invariant
                i <= self.library_books.len(),
                forall|k: int|
                    0 <= k < ids@.len() ==> self@.holds(library_id as int, #[trigger] ids@[k] as int),
                forall|j: int|
                    0 <= j < i && (#[trigger] self@.library_books[j]).library_id == library_id
                        ==> id_listed(ids@, self@.library_books[j].book_id),
            decreases self.library_books.len() - i,
        {
            if self.library_books[i].library_id == library_id {
                let ghost earlier = ids@;
                let book_id: i32 = self.library_books[i].book_id;
                ids.push(book_id);
                proof {
                    assert(self@.library_books[i as int].library_id == library_id);
                    assert(ids@[earlier.len() as int] == book_id);
                    assert forall|j: int|
                        0 <= j < i + 1 && (#[trigger] self@.library_books[j]).library_id
                            == library_id implies id_listed(ids@, self@.library_books[j].book_id) by {
                        if j < i {
                            assert(id_listed(earlier, self@.library_books[j].book_id));
                            let k = choose|k: int|
                                0 <= k < earlier.len() && #[trigger] earlier[k]
                                    == self@.library_books[j].book_id;
                            assert(ids@[k] == earlier[k]);
                        }
                    }
                }
            }
            i += 1;
        }
        proof {
            assert forall|id: int| self@.holds(library_id as int, id) implies id_listed(
                ids@,
                id,
            ) by {
                let j = self@.holding_index(library_id as int, id);
                assert(self@.library_books[j].library_id == library_id);
            }
        }
        ids
    }

    /// Copies of all books, in catalog order.
    pub(crate) fn copy_books(&self) -> (found: Vec<Book>)
        ensures
            book_rows(found@) == self@.books,
    {
        let mut found: Vec<Book> = Vec::new();
        let mut i: usize = 0;
        while i < self.books.len()
            invariant
                i <= self.books.len(),
                book_rows(found@) =~= self@.books.take(i as int),
            decreases self.books.len() - i,
        {
            let copy = self.books[i].clone();
            let ghost earlier = found@;
            found.push(copy);
            proof {
                assert(self@.books[i as int] == self.books@[i as int]@);
                assert(book_rows(found@) =~= book_rows(earlier).push(copy@));
                self@.books.lemma_take_succ_push(i as int);
            }
            i += 1;
        }
        proof {
            assert(self@.books.take(i as int) =~= self@.books);
        }
        found
    }
}

impl BookRepositoryTrait for Store {
    open spec fn valid(&self) -> bool {
        self.wf()
    }

    open spec fn content(&self) -> StoreState {
        self@
    }

    /// Exactly what `create_book` gives and leaves behind.
    open spec fn creates_book(
        &self,
        title: Seq<char>,
        author: Seq<char>,
        library_id: int,
        after: StoreState,
        created: Result<i32, RepoError>,
    ) -> bool {
        &&& match self@.create_book_fault(library_id) {
            Some(e) => created == Err::<i32, RepoError>(e) && after == self@,
            None => created == Ok::<i32, RepoError>((self@.last_book_id + 1) as i32)
                && exists|now: Seq<char>|
                after == #[trigger] self@.with_new_book(
                    title,
                    author,
                    library_id,
                    now,
                ),
        }
    }

    /// Adds a book to the catalog, with the current time for both of its
    /// timestamps, and one copy of it to the holdings of `library_id`. Both
    /// happen or neither: where the library is not there, the catalog is as
    /// it was. Gives the new book's id.
    ///
    /// The time is read from the machine's clock; where that clock stands
    /// before 1970 the call panics.
    fn create_book(&mut self, title: &str, author: &str, library_id: &i32) -> (created: Result<
        i32,
        RepoError,
    >)
    {
        let now = utc_timestamp();
        self.create_book_at(title, author, library_id, now.as_str())
    }

    /// Exactly what `update_book` gives and leaves behind.
    open spec fn updates_book(
        &self,
        id: int,
        title: Seq<char>,
        author: Seq<char>,
        after: StoreState,
        updated: Result<usize, RepoError>,
    ) -> bool {
        &&& match self@.schema_fault() {
            Some(e) => updated == Err::<usize, RepoError>(e) && after == self@,
            None => updated == Ok::<usize, RepoError>(
                self@.count_books(id) as usize,
            ) && after == self@.with_book_renamed(id, title, author),
        }
    }

    /// Sets the title and the author of the book with this id and gives the
    /// number of rows changed: 1, or 0 where no book has the id. The
    /// timestamps are not touched.
    fn update_book(&mut self, id: &i32, title: &str, author: &str) -> (updated: Result<
        usize,
        RepoError,
    >)
    {
        if !self.is_ready() {
            return Err(RepoError::TransactionFailure);
        }
        proof {
            old(self)@.lemma_with_book_renamed_wf(*id as int, title@, author@);
        }
        match self.book_position(*id) {
            None => {
                proof {
                    assert(self@.books =~= old(self)@.with_book_renamed(
                        *id as int,
                        title@,
                        author@,
                    ).books);
                }
                Ok(0)
            },
            Some(i) => {
                let renamed = Book {
                    id: self.books[i].id,
                    title: title.to_owned(),
                    author: author.to_owned(),
                    created_at: self.books[i].created_at.clone(),
                    updated_at: self.books[i].updated_at.clone(),
                };
                self.books.set(i, renamed);
                proof {
                    assert(self@.books =~= old(self)@.with_book_renamed(
                        *id as int,
                        title@,
                        author@,
                    ).books);
                }
                Ok(1)
            },
        }
    }

    /// Exactly what `delete_book` gives and leaves behind.
    open spec fn deletes_book(
        &self,
        id: int,
        after: StoreState,
        deleted: Result<usize, RepoError>,
    ) -> bool {
        &&& match self@.schema_fault() {
            Some(e) => deleted == Err::<usize, RepoError>(e) && after == self@,
            None => deleted == Ok::<usize, RepoError>(
                self@.count_books(id) as usize,
            ) && after == self@.without_book(id),
        }
    }

    /// Deletes the book with this id and gives the number of rows deleted:
    /// 1, or 0 where no book has the id. Only the catalog changes: holdings
    /// and loans of the book stay, and refer to a book that is gone.
    fn delete_book(&mut self, id: &i32) -> (deleted: Result<usize, RepoError>)
    {
        if !self.is_ready() {
            return Err(RepoError::TransactionFailure);
        }
        proof {
            old(self)@.lemma_without_book_wf(*id as int);
        }
        match self.book_position(*id) {
            None => Ok(0),
            Some(i) => {
                self.books.remove(i);
                proof {
                    assert(self@.books =~= old(self)@.books.remove(i as int));
                }
                Ok(1)
            },
        }
    }

    /// Exactly what `get_book_by_id` gives and leaves behind.
    open spec fn finds_book(
        &self,
        id: int,
        after: StoreState,
        found: Result<Book, RepoError>,
    ) -> bool {
        &&& after == self@
        &&& match self@.find_book(id) {
            Ok(row) => found matches Ok(book) && book@ == row,
            Err(e) => found matches Err(x) && x == e,
        }
    }

    /// The book with this id; `NotFound` where there is none.
    fn get_book_by_id(&mut self, id: &i32) -> (found: Result<Book, RepoError>)
    {
        if !self.is_ready() {
            return Err(RepoError::TransactionFailure);
        }
        match self.book_position(*id) {
            None => Err(RepoError::NotFound),
            Some(i) => Ok(self.books[i].clone()),
        }
    }

    /// Exactly what `get_books` gives and leaves behind.
    open spec fn lists_books(
        &self,
        after: StoreState,
        found: Result<Vec<Book>, RepoError>,
    ) -> bool {
        &&& after == self@
        &&& match self@.schema_fault() {
            Some(e) => found matches Err(x) && x == e,
            None => found matches Ok(books) && book_rows(books@) == self@.books,
        }
    }

    /// All books, in the order of their ids.
    fn get_books(&mut self) -> (found: Result<Vec<Book>, RepoError>)
    {
        if !self.is_ready() {
            return Err(RepoError::TransactionFailure);
        }
        Ok(self.copy_books())
    }

    /// Exactly what `get_books_by_library_id` gives and leaves behind.
    open spec fn lists_books_of_library(
        &self,
        library_id: int,
        after: StoreState,
        found: Result<Vec<Book>, RepoError>,
    ) -> bool {
        &&& after == self@
        &&& match self@.schema_fault() {
            Some(e) => found matches Err(x) && x == e,
            None => found matches Ok(books) && book_rows(books@) == self@.books_of_library(library_id),
        }
    }

    /// The books of which the library holds copies, in the order of their
    /// ids: first the ids that the holdings give for the library, then the
    /// books with those ids. A library without holdings, or one that is not
    /// there, has none.
    fn get_books_by_library_id(&mut self, library_id: &i32) -> (found: Result<
        Vec<Book>,
        RepoError,
    >)
    {
        if !self.is_ready() {
            return Err(RepoError::TransactionFailure);
        }
        let book_ids = self.held_book_ids(*library_id);
        let books = self.books_with_ids(&book_ids);
        proof {
            lemma_filter_agree(
                self@.books,
                |b: BookRow| id_listed(book_ids@, b.id),
                |b: BookRow| self@.holds(*library_id as int, b.id),
            );
        }
        Ok(books)
    }
}

} // verus!
