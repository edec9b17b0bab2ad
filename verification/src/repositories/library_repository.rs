//! Libraries, and the holdings of each.

use crate::error::RepoError;
use crate::clock::utc_timestamp;
use crate::models::book::{HoldingRow, LibraryBook, NewLibraryBook};
use crate::models::library::{library_rows, Library, LibraryRow, NewLibrary};
use crate::state::StoreState;
use crate::store::Store;
use crate::traits::LibraryRepositoryTrait;
use vstd::prelude::*;

verus! {

impl StoreState {
    /// Why a holding cannot be inserted: the schema is missing, the pair is
    /// there already, or the library or the book is not there. A pair that
    /// is there already is found first, whether or not its library and its
    /// book still are.
    pub open spec fn insert_holding_fault(self, library_id: int, book_id: int) -> Option<
        RepoError,
    > {
        if !self.ready() {
            Some(RepoError::TransactionFailure)
        } else if self.holds(library_id, book_id) {
            Some(RepoError::Conflict)
        } else if !self.has_library(library_id) || !self.has_book(book_id) {
            Some(RepoError::ConstraintViolation)
        } else {
            None
        }
    }

    /// The store with one more holding.
    pub open spec fn with_holding(self, library_id: int, book_id: int, quantity: int) -> StoreState {
        StoreState {
            library_books: self.library_books.push(HoldingRow { library_id, book_id, quantity }),
            ..self
        }
    }

    /// A holding of an existing book by an existing library, where there was
    /// none, keeps the store valid and is then found with its quantity.
    pub proof fn lemma_with_holding_wf(self, library_id: int, book_id: int, quantity: int)
        requires
            self.wf(),
            !self.holds(library_id, book_id),
            self.has_library(library_id),
            self.has_book(book_id),
        ensures
            self.with_holding(library_id, book_id, quantity).wf(),
            self.with_holding(library_id, book_id, quantity).holds(library_id, book_id),
            self.with_holding(library_id, book_id, quantity).quantity(library_id, book_id)
                == quantity,
    {
        let next = self.with_holding(library_id, book_id, quantity);
        let n = self.library_books.len() as int;
        assert(next.library_books[n] == HoldingRow { library_id, book_id, quantity });
        assert forall|i: int| 0 <= i < next.library_books.len() implies {
            &&& 1 <= (#[trigger] next.library_books[i]).library_id <= next.last_library_id
            &&& 1 <= next.library_books[i].book_id <= next.last_book_id
        } by {
            if i < n {
                assert(next.library_books[i] == self.library_books[i]);
            }
        }
        assert forall|i: int, j: int| 0 <= i < j < next.library_books.len() implies !((
        #[trigger] next.library_books[i]).library_id == (
        #[trigger] next.library_books[j]).library_id && next.library_books[i].book_id
            == next.library_books[j].book_id) by {
            assert(next.library_books[i] == self.library_books[i]);
            if j < n {
                assert(next.library_books[j] == self.library_books[j]);
            }
        }
        assert(next.joins_wf());
        assert(next.entities_wf());
        let k = next.holding_index(library_id, book_id);
        if k < n {
            assert(next.library_books[k] == self.library_books[k]);
        }
    }
}

impl Store {
    /// Inserts one row into the holdings and gives the number of rows
    /// inserted. A pair that is there already is a conflict; a library or a
    /// book that is not there is a constraint violation.
    pub fn insert_library_book(&mut self, row: &NewLibraryBook) -> (inserted: Result<
        usize,
        RepoError,
    >)
        requires
            old(self).wf(),
        ensures
            final(self).wf(),
            match old(self)@.insert_holding_fault(*row.library_id as int, *row.book_id as int) {
                Some(e) => inserted == Err::<usize, RepoError>(e) && final(self)@ == old(self)@,
                None => inserted == Ok::<usize, RepoError>(1) && final(self)@ == old(
                    self,
                )@.with_holding(*row.library_id as int, *row.book_id as int, *row.quantity as int),
            },
    {
        if !self.is_ready() {
            return Err(RepoError::TransactionFailure);
        }
        let library_id: i32 = *row.library_id;
        let book_id: i32 = *row.book_id;
        if self.holding_position(library_id, book_id).is_some() {
            return Err(RepoError::Conflict);
        }
        if self.library_position(library_id).is_none() || self.book_position(book_id).is_none() {
            return Err(RepoError::ConstraintViolation);
        }
        let holding = LibraryBook { library_id, book_id, quantity: *row.quantity };
        self.library_books.push(holding);
        proof {
            assert(self@.library_books =~= old(self)@.library_books.push(holding@));
            old(self)@.lemma_with_holding_wf(
                library_id as int,
                book_id as int,
                *row.quantity as int,
            );
        }
        Ok(1)
    }
}

impl StoreState {
    /// Why a library cannot be inserted: the schema is missing, the ids have
    /// run out, or the manager is not a member. Ids that have run out are
    /// found before the manager is looked for.
    pub open spec fn create_library_fault(self, manager_id: int) -> Option<RepoError> {
        if !self.ready() {
            Some(RepoError::TransactionFailure)
        } else if self.last_library_id >= i32::MAX {
            Some(RepoError::TransactionFailure)
        } else if !self.has_member(manager_id) {
            Some(RepoError::ConstraintViolation)
        } else {
            None
        }
    }

    /// The store with one more library, under the next id.
    pub open spec fn with_library(
        self,
        name: Seq<char>,
        address: Seq<char>,
        manager_id: int,
        created_at: Seq<char>,
        updated_at: Seq<char>,
    ) -> StoreState {
        StoreState {
            libraries: self.libraries.push(
                LibraryRow {
                    id: self.last_library_id + 1,
                    name,
                    address,
                    created_at,
                    updated_at,
                    manager_id,
                },
            ),
            last_library_id: self.last_library_id + 1,
            ..self
        }
    }

    /// Why a library cannot be changed: the schema is missing, or the
    /// library is there and the new manager is not a member.
    pub open spec fn update_library_fault(self, id: int, manager_id: int) -> Option<RepoError> {
        if !self.ready() {
            Some(RepoError::TransactionFailure)
        } else if self.has_library(id) && !self.has_member(manager_id) {
            Some(RepoError::ConstraintViolation)
        } else {
            None
        }
    }

    /// The store in which the library with this id, if there is one, has a
    /// new name, address and manager. Its timestamps stay as they were.
    pub open spec fn with_library_changed(
        self,
        id: int,
        name: Seq<char>,
        address: Seq<char>,
        manager_id: int,
    ) -> StoreState {
        StoreState {
            libraries: Seq::new(
                self.libraries.len(),
                |i: int|
                    if self.libraries[i].id == id {
                        LibraryRow { name, address, manager_id, ..self.libraries[i] }
                    } else {
                        self.libraries[i]
                    },
            ),
            ..self
        }
    }

    /// The store without the library with this id. Its holdings stay where
    /// they are.
    pub open spec fn without_library(self, id: int) -> StoreState {
        if self.has_library(id) {
            StoreState { libraries: self.libraries.remove(self.library_index(id)), ..self }
        } else {
            self
        }
    }

    /// How many libraries have this id: one or none.
    pub open spec fn count_libraries(self, id: int) -> int {
        if self.has_library(id) {
            1
        } else {
            0
        }
    }

    /// The library with this id, or why it is not to be had.
    pub open spec fn find_library(self, id: int) -> Result<LibraryRow, RepoError> {
        if !self.ready() {
            Err(RepoError::TransactionFailure)
        } else if !self.has_library(id) {
            Err(RepoError::NotFound)
        } else {
            Ok(self.library(id))
        }
    }

    /// How many holdings have this pair: one or none.
    pub open spec fn count_holdings(self, library_id: int, book_id: int) -> int {
        if self.holds(library_id, book_id) {
            1
        } else {
            0
        }
    }

    /// The store in which the holding of this pair, if there is one, has
    /// this quantity in place of the one it had.
    pub open spec fn with_quantity(self, library_id: int, book_id: int, quantity: int) -> StoreState {
        StoreState {
            library_books: Seq::new(
                self.library_books.len(),
                |i: int|
                    if self.library_books[i].library_id == library_id
                        && self.library_books[i].book_id == book_id {
                        HoldingRow { quantity, ..self.library_books[i] }
                    } else {
                        self.library_books[i]
                    },
            ),
            ..self
        }
    }

    /// A library under the next id, run by a member, keeps the store valid
    /// and is then found.
    pub proof fn lemma_with_library_wf(
        self,
        name: Seq<char>,
        address: Seq<char>,
        manager_id: int,
        created_at: Seq<char>,
        updated_at: Seq<char>,
    )
        requires
            self.wf(),
            self.last_library_id < i32::MAX,
            self.has_member(manager_id),
        ensures
            self.with_library(name, address, manager_id, created_at, updated_at).wf(),
            self.with_library(name, address, manager_id, created_at, updated_at).has_library(
                self.last_library_id + 1,
            ),
            !self.has_library(self.last_library_id + 1),
    {
        let next = self.with_library(name, address, manager_id, created_at, updated_at);
        let n = self.libraries.len() as int;
        assert(next.libraries[n].id == self.last_library_id + 1);
        let m = self.member_index(manager_id);
        assert(1 <= self.members[m].id <= self.last_member_id);
        assert forall|i: int| 0 <= i < next.libraries.len() implies 1 <= (
        #[trigger] next.libraries[i]).id <= next.last_library_id by {
            if i < n {
                assert(next.libraries[i] == self.libraries[i]);
            }
        }
        assert forall|i: int| 0 <= i < next.libraries.len() implies 1 <= (
        #[trigger] next.libraries[i]).manager_id <= next.last_member_id by {
            if i < n {
                assert(next.libraries[i] == self.libraries[i]);
            }
        }
        assert forall|i: int, j: int| 0 <= i < j < next.libraries.len() implies (
        #[trigger] next.libraries[i]).id < (#[trigger] next.libraries[j]).id by {
            assert(next.libraries[i] == self.libraries[i]);
            if j < n {
                assert(next.libraries[j] == self.libraries[j]);
            }
        }
        assert(next.entities_wf());
        assert(next.joins_wf());
    }

    /// A change of a library whose new manager is a member keeps the store
    /// valid.
    pub proof fn lemma_with_library_changed_wf(
        self,
        id: int,
        name: Seq<char>,
        address: Seq<char>,
        manager_id: int,
    )
        requires
            self.wf(),
            self.has_library(id) ==> self.has_member(manager_id),
        ensures
            self.with_library_changed(id, name, address, manager_id).wf(),
    {
        let next = self.with_library_changed(id, name, address, manager_id);
        if self.has_library(id) {
            let m = self.member_index(manager_id);
            assert(1 <= self.members[m].id <= self.last_member_id);
        }
        assert forall|i: int| 0 <= i < next.libraries.len() implies 1 <= (
        #[trigger] next.libraries[i]).id <= next.last_library_id by {
            assert(next.libraries[i].id == self.libraries[i].id);
        }
        assert forall|i: int| 0 <= i < next.libraries.len() implies 1 <= (
        #[trigger] next.libraries[i]).manager_id <= next.last_member_id by {
            assert(self.libraries[i].id == id ==> self.has_library(id));
            assert(1 <= self.libraries[i].manager_id <= self.last_member_id);
        }
        assert forall|i: int, j: int| 0 <= i < j < next.libraries.len() implies (
        #[trigger] next.libraries[i]).id < (#[trigger] next.libraries[j]).id by {
            assert(next.libraries[i].id == self.libraries[i].id);
            assert(next.libraries[j].id == self.libraries[j].id);
        }
        assert(next.entities_wf());
        assert(next.joins_wf());
    }

    /// Closing a library keeps the store valid, and the library is gone.
    pub proof fn lemma_without_library_wf(self, id: int)
        requires
            self.wf(),
        ensures
            self.without_library(id).wf(),
            !self.without_library(id).has_library(id),
    {
        let next = self.without_library(id);
        if self.has_library(id) {
            let at = self.library_index(id);
            assert forall|i: int| 0 <= i < next.libraries.len() implies 1 <= (
            #[trigger] next.libraries[i]).id <= next.last_library_id && next.libraries[i].id
                != id && 1 <= next.libraries[i].manager_id <= next.last_member_id by {
                if i < at {
                    assert(next.libraries[i] == self.libraries[i]);
                } else {
                    assert(next.libraries[i] == self.libraries[i + 1]);
                }
            }
            assert forall|i: int, j: int| 0 <= i < j < next.libraries.len() implies (
            #[trigger] next.libraries[i]).id < (#[trigger] next.libraries[j]).id by {
                let oi = if i < at { i } else { i + 1 };
                let oj = if j < at { j } else { j + 1 };
                assert(next.libraries[i] == self.libraries[oi]);
                assert(next.libraries[j] == self.libraries[oj]);
            }
            assert(next.entities_wf());
            assert(next.joins_wf());
        }
    }

    /// A new quantity keeps the store valid and the pairs that are held;
    /// where the pair is held, it is then held in that quantity.
    pub proof fn lemma_with_quantity_wf(self, library_id: int, book_id: int, quantity: int)
        requires
            self.wf(),
        ensures
            self.with_quantity(library_id, book_id, quantity).wf(),
            forall|l: int, b: int|
                self.with_quantity(library_id, book_id, quantity).holds(l, b) == self.holds(l, b),
            self.holds(library_id, book_id) ==> self.with_quantity(
                library_id,
                book_id,
                quantity,
            ).quantity(library_id, book_id) == quantity,
    {
        let next = self.with_quantity(library_id, book_id, quantity);
        assert forall|i: int| 0 <= i < next.library_books.len() implies {
            &&& 1 <= (#[trigger] next.library_books[i]).library_id <= next.last_library_id
            &&& 1 <= next.library_books[i].book_id <= next.last_book_id
        } by {
            assert(next.library_books[i].library_id == self.library_books[i].library_id);
            assert(next.library_books[i].book_id == self.library_books[i].book_id);
        }
        assert forall|i: int, j: int| 0 <= i < j < next.library_books.len() implies !((
        #[trigger] next.library_books[i]).library_id == (
        #[trigger] next.library_books[j]).library_id && next.library_books[i].book_id
            == next.library_books[j].book_id) by {
            assert(next.library_books[i].library_id == self.library_books[i].library_id);
            assert(next.library_books[i].book_id == self.library_books[i].book_id);
            assert(next.library_books[j].library_id == self.library_books[j].library_id);
            assert(next.library_books[j].book_id == self.library_books[j].book_id);
        }
        assert(next.joins_wf());
        assert(next.entities_wf());
        assert forall|l: int, b: int| next.holds(l, b) == self.holds(l, b) by {
            if self.holds(l, b) {
                let i = self.holding_index(l, b);
                assert(next.library_books[i].library_id == l && next.library_books[i].book_id
                    == b);
            }
            if next.holds(l, b) {
                let i = next.holding_index(l, b);
                assert(self.library_books[i].library_id == l && self.library_books[i].book_id
                    == b);
            }
        }
        if self.holds(library_id, book_id) {
            let i = next.holding_index(library_id, book_id);
            assert(self.library_books[i].library_id == library_id);
        }
    }
}

impl Store {
    /// Inserts one row into the libraries and gives the number of rows
    /// inserted. The store picks the id; a manager who is not a member is a
    /// constraint violation.
    pub fn insert_library(&mut self, row: &NewLibrary) -> (inserted: Result<usize, RepoError>)
        requires
            old(self).wf(),
        ensures
            final(self).wf(),
            match old(self)@.create_library_fault(*row.manager_id as int) {
                Some(e) => inserted == Err::<usize, RepoError>(e) && final(self)@ == old(self)@,
                None => inserted == Ok::<usize, RepoError>(1) && final(self)@ == old(
                    self,
                )@.with_library(
                    row.name@,
                    row.address@,
                    *row.manager_id as int,
                    row.created_at@,
                    row.updated_at@,
                ),
            },
    {
        if !self.is_ready() {
            return Err(RepoError::TransactionFailure);
        }
        if self.last_library_id == i32::MAX {
            return Err(RepoError::TransactionFailure);
        }
        if self.member_position(*row.manager_id).is_none() {
            return Err(RepoError::ConstraintViolation);
        }
        let id: i32 = self.last_library_id + 1;
        let library = Library {
            id,
            name: row.name.to_owned(),
            address: row.address.to_owned(),
            created_at: row.created_at.to_owned(),
            updated_at: row.updated_at.to_owned(),
            manager_id: *row.manager_id,
        };
        self.libraries.push(library);
        self.last_library_id = id;
        proof {
            assert(self@.libraries =~= old(self)@.libraries.push(library@));
            old(self)@.lemma_with_library_wf(
                row.name@,
                row.address@,
                *row.manager_id as int,
                row.created_at@,
                row.updated_at@,
            );
        }
        Ok(1)
    }

    /// Opens a library as `create_library` does, with `now` for the time.
    pub fn create_library_at(&mut self, name: &str, address: &str, manager_id: &i32, now: &str) -> (created:
        Result<i32, RepoError>)
        requires
            old(self).wf(),
        ensures
            final(self).wf(),
            match old(self)@.create_library_fault(*manager_id as int) {
                Some(e) => created == Err::<i32, RepoError>(e) && final(self)@ == old(self)@,
                None => created == Ok::<i32, RepoError>((old(self)@.last_library_id + 1) as i32)
                    && final(self)@ == old(self)@.with_library(
                    name@,
                    address@,
                    *manager_id as int,
                    now@,
                    now@,
                ),
            },
    {
        let new_library = NewLibrary {
            name,
            address,
            manager_id,
            created_at: now,
            updated_at: now,
        };
        match self.insert_library(&new_library) {
            Ok(_) => Ok(self.last_library_id),
            Err(e) => Err(e),
        }
    }

    /// Copies of all libraries, in the order of their ids.
    pub(crate) fn copy_libraries(&self) -> (found: Vec<Library>)
        ensures
            library_rows(found@) == self@.libraries,
    {
        let mut found: Vec<Library> = Vec::new();
        let mut i: usize = 0;
        while i < self.libraries.len()
            invariant
                i <= self.libraries.len(),
                library_rows(found@) =~= self@.libraries.take(i as int),
            decreases self.libraries.len() - i,
        {
            let copy = self.libraries[i].clone();
            let ghost earlier = found@;
            found.push(copy);
            proof {
                assert(self@.libraries[i as int] == self.libraries@[i as int]@);
                assert(library_rows(found@) =~= library_rows(earlier).push(copy@));
                self@.libraries.lemma_take_succ_push(i as int);
            }
            i += 1;
        }
        proof {
            assert(self@.libraries.take(i as int) =~= self@.libraries);
        }
        found
    }
}

impl LibraryRepositoryTrait for Store {
    open spec fn valid(&self) -> bool {
        self.wf()
    }

    open spec fn content(&self) -> StoreState {
        self@
    }

    /// Exactly what `create_library` gives and leaves behind.
    open spec fn creates_library(
        &self,
        name: Seq<char>,
        address: Seq<char>,
        manager_id: int,
        after: StoreState,
        created: Result<i32, RepoError>,
    ) -> bool {
        &&& match self@.create_library_fault(manager_id) {
            Some(e) => created == Err::<i32, RepoError>(e) && after == self@,
            None => created == Ok::<i32, RepoError>((self@.last_library_id + 1) as i32)
                && exists|now: Seq<char>|
                after == #[trigger] self@.with_library(
                    name,
                    address,
                    manager_id,
                    now,
                    now,
                ),
        }
    }

    /// Opens a library, with the current time for both of its timestamps,
    /// and gives its id. The manager has to be a member.
    ///
    /// The time is read from the machine's clock; where that clock stands
    /// before 1970 the call panics.
    fn create_library(&mut self, name: &str, address: &str, manager_id: &i32) -> (created: Result<
        i32,
        RepoError,
    >)
    {
        let now = utc_timestamp();
        self.create_library_at(name, address, manager_id, now.as_str())
    }

    /// Exactly what `get_libraries` gives and leaves behind.
    open spec fn lists_libraries(
        &self,
        after: StoreState,
        found: Result<Vec<Library>, RepoError>,
    ) -> bool {
        &&& after == self@
        &&& match self@.schema_fault() {
            Some(e) => found matches Err(x) && x == e,
            None => found matches Ok(libraries) && library_rows(libraries@) == self@.libraries,
        }
    }

    /// All libraries, in the order of their ids.
    fn get_libraries(&mut self) -> (found: Result<Vec<Library>, RepoError>)
    {
        if !self.is_ready() {
            return Err(RepoError::TransactionFailure);
        }
        Ok(self.copy_libraries())
    }

    /// Exactly what `get_library_by_id` gives and leaves behind.
    open spec fn finds_library(
        &self,
        id: int,
        after: StoreState,
        found: Result<Library, RepoError>,
    ) -> bool {
        &&& after == self@
        &&& match self@.find_library(id) {
            Ok(row) => found matches Ok(library) && library@ == row,
            Err(e) => found matches Err(x) && x == e,
        }
    }

    /// The library with this id; `NotFound` where there is none.
    fn get_library_by_id(&mut self, id: &i32) -> (found: Result<Library, RepoError>)
    {
        if !self.is_ready() {
            return Err(RepoError::TransactionFailure);
        }
        match self.library_position(*id) {
            None => Err(RepoError::NotFound),
            Some(i) => Ok(self.libraries[i].clone()),
        }
    }

    /// Exactly what `update_library` gives and leaves behind.
    open spec fn updates_library(
        &self,
        id: int,
        name: Seq<char>,
        address: Seq<char>,
        manager_id: int,
        after: StoreState,
        updated: Result<usize, RepoError>,
    ) -> bool {
        &&& match self@.update_library_fault(id, manager_id) {
            Some(e) => updated == Err::<usize, RepoError>(e) && after == self@,
            None => updated == Ok::<usize, RepoError>(
                self@.count_libraries(id) as usize,
            ) && after == self@.with_library_changed(
                id,
                name,
                address,
                manager_id,
            ),
        }
    }

    /// Sets the name, the address and the manager of the library with this
    /// id and gives the number of rows changed: 1, or 0 where no library has
    /// the id. The timestamps are not touched. A new manager who is not a
    /// member is a constraint violation.
    fn update_library(&mut self, id: &i32, name: &str, address: &str, manager_id: &i32) -> (updated:
        Result<usize, RepoError>)
    {
        if !self.is_ready() {
            return Err(RepoError::TransactionFailure);
        }
        match self.library_position(*id) {
            None => {
                proof {
                    old(self)@.lemma_with_library_changed_wf(
                        *id as int,
                        name@,
                        address@,
                        *manager_id as int,
                    );
                    assert(self@.libraries =~= old(self)@.with_library_changed(
                        *id as int,
                        name@,
                        address@,
                        *manager_id as int,
                    ).libraries);
                }
                Ok(0)
            },
            Some(i) => {
                if self.member_position(*manager_id).is_none() {
                    return Err(RepoError::ConstraintViolation);
                }
                let changed = Library {
                    id: self.libraries[i].id,
                    name: name.to_owned(),
                    address: address.to_owned(),
                    created_at: self.libraries[i].created_at.clone(),
                    updated_at: self.libraries[i].updated_at.clone(),
                    manager_id: *manager_id,
                };
                self.libraries.set(i, changed);
                proof {
                    old(self)@.lemma_with_library_changed_wf(
                        *id as int,
                        name@,
                        address@,
                        *manager_id as int,
                    );
                    assert(self@.libraries =~= old(self)@.with_library_changed(
                        *id as int,
                        name@,
                        address@,
                        *manager_id as int,
                    ).libraries);
                }
                Ok(1)
            },
        }
    }

    /// Exactly what `delete_library` gives and leaves behind.
    open spec fn deletes_library(
        &self,
        id: int,
        after: StoreState,
        deleted: Result<usize, RepoError>,
    ) -> bool {
        &&& match self@.schema_fault() {
            Some(e) => deleted == Err::<usize, RepoError>(e) && after == self@,
            None => deleted == Ok::<usize, RepoError>(
                self@.count_libraries(id) as usize,
            ) && after == self@.without_library(id),
        }
    }

    /// Deletes the library with this id and gives the number of rows
    /// deleted: 1, or 0 where no library has the id. Only the libraries
    /// change: the holdings of the library stay, and refer to a library that
    /// is gone.
    fn delete_library(&mut self, id: &i32) -> (deleted: Result<usize, RepoError>)
    {
        if !self.is_ready() {
            return Err(RepoError::TransactionFailure);
        }
        proof {
            old(self)@.lemma_without_library_wf(*id as int);
        }
        match self.library_position(*id) {
            None => Ok(0),
            Some(i) => {
                self.libraries.remove(i);
                proof {
                    assert(self@.libraries =~= old(self)@.libraries.remove(i as int));
                }
                Ok(1)
            },
        }
    }

    /// Exactly what `add_book` gives and leaves behind.
    open spec fn adds_book(
        &self,
        library_id: int,
        book_id: int,
        after: StoreState,
        added: Result<usize, RepoError>,
    ) -> bool {
        &&& match self@.insert_holding_fault(library_id, book_id) {
            Some(e) => added == Err::<usize, RepoError>(e) && after == self@,
            None => added == Ok::<usize, RepoError>(1) && after == self@.with_holding(library_id, book_id, 1),
        }
    }

    /// Enters one copy of the book in the library's holdings and gives the
    /// number of rows inserted. A pair that is held already is a conflict,
    /// and its quantity stays.
    fn add_book(&mut self, library_id: &i32, book_id: &i32) -> (added: Result<usize, RepoError>)
    {
        let one: i32 = 1;
        let new_library_book = NewLibraryBook { library_id, book_id, quantity: &one };
        self.insert_library_book(&new_library_book)
    }

    /// Exactly what `add_book_quantity` gives and leaves behind.
    open spec fn sets_quantity(
        &self,
        library_id: int,
        book_id: int,
        quantity: int,
        after: StoreState,
        updated: Result<usize, RepoError>,
    ) -> bool {
        &&& match self@.schema_fault() {
            Some(e) => updated == Err::<usize, RepoError>(e) && after == self@,
            None => updated == Ok::<usize, RepoError>(
                self@.count_holdings(library_id, book_id) as usize,
            ) && after == self@.with_quantity(
                library_id,
                book_id,
                quantity,
            ),
        }
    }

    /// Sets the number of copies that the library holds of the book to
    /// `quantity`, in place of the number that was there, and gives the
    /// number of rows changed: 1, or 0 where the library does not hold the
    /// book. No holding is made where there was none.
    fn add_book_quantity(&mut self, library_id: &i32, book_id: &i32, quantity: &i32) -> (updated:
        Result<usize, RepoError>)
    {
        if !self.is_ready() {
            return Err(RepoError::TransactionFailure);
        }
        proof {
            old(self)@.lemma_with_quantity_wf(
                *library_id as int,
                *book_id as int,
                *quantity as int,
            );
        }
        match self.holding_position(*library_id, *book_id) {
            None => {
                proof {
                    assert(self@.library_books =~= old(self)@.with_quantity(
                        *library_id as int,
                        *book_id as int,
                        *quantity as int,
                    ).library_books);
                }
                Ok(0)
            },
            Some(i) => {
                let holding = LibraryBook {
                    library_id: *library_id,
                    book_id: *book_id,
                    quantity: *quantity,
                };
                self.library_books.set(i, holding);
                proof {
                    assert(self@.library_books =~= old(self)@.with_quantity(
                        *library_id as int,
                        *book_id as int,
                        *quantity as int,
                    ).library_books);
                }
                Ok(1)
            },
        }
    }
}

} // verus!
