//! Members, and the ledger of the books that they hold.

use crate::clock::utc_timestamp;
use crate::error::RepoError;
use crate::models::book::{Book, BookRow, BorrowedBook, LoanRow, NewBorrowedBook, book_rows};
use crate::models::member::{member_rows, Member, MemberRow, NewMember};
use crate::sequences::lemma_filter_agree;
use crate::state::{id_listed, StoreState};
use crate::store::{list_has, Store};
use crate::traits::MemberRepositoryTrait;
use vstd::prelude::*;

verus! {

impl StoreState {
    /// Why a member cannot be inserted: the schema is missing, or the ids
    /// have run out.
    pub open spec fn create_member_fault(self) -> Option<RepoError> {
        if !self.ready() {
            Some(RepoError::TransactionFailure)
        } else if self.last_member_id >= i32::MAX {
            Some(RepoError::TransactionFailure)
        } else {
            None
        }
    }

    /// The store with one more member, under the next id.
    pub open spec fn with_member(
        self,
        name: Seq<char>,
        email: Seq<char>,
        created_at: Seq<char>,
        updated_at: Seq<char>,
    ) -> StoreState {
        StoreState {
            members: self.members.push(
                MemberRow { id: self.last_member_id + 1, name, email, created_at, updated_at },
            ),
            last_member_id: self.last_member_id + 1,
            ..self
        }
    }

    /// The store in which the member with this id, if there is one, has a
    /// new name and email and was updated at `now`.
    pub open spec fn with_member_changed(
        self,
        id: int,
        name: Seq<char>,
        email: Seq<char>,
        now: Seq<char>,
    ) -> StoreState {
        StoreState {
            members: Seq::new(
                self.members.len(),
                |i: int|
                    if self.members[i].id == id {
                        MemberRow { name, email, updated_at: now, ..self.members[i] }
                    } else {
                        self.members[i]
                    },
            ),
            ..self
        }
    }

    /// The store without the member with this id. The member's loans stay
    /// where they are.
    pub open spec fn without_member(self, id: int) -> StoreState {
        if self.has_member(id) {
            StoreState { members: self.members.remove(self.member_index(id)), ..self }
        } else {
            self
        }
    }

    /// How many members have this id: one or none.
    pub open spec fn count_members(self, id: int) -> int {
        if self.has_member(id) {
            1
        } else {
            0
        }
    }

    /// The member with this id, or why the member is not to be had.
    pub open spec fn find_member(self, id: int) -> Result<MemberRow, RepoError> {
        if !self.ready() {
            Err(RepoError::TransactionFailure)
        } else if !self.has_member(id) {
            Err(RepoError::NotFound)
        } else {
            Ok(self.member(id))
        }
    }

    /// The members whose ids stand in the list, in the order of their ids.
    pub open spec fn members_among(self, ids: Seq<i32>) -> Seq<MemberRow> {
        self.members.filter(|m: MemberRow| id_listed(ids, m.id))
    }

    /// The members on the library's roster, in the order of their ids.
    pub open spec fn members_of_library(self, library_id: int) -> Seq<MemberRow> {
        self.members.filter(|m: MemberRow| self.enrolled(library_id, m.id))
    }

    /// Why a loan cannot be entered: the schema is missing, the member holds
    /// the book already, or the member or the book is not there. A loan that
    /// is there already is found first, whether or not its member and its
    /// book still are.
    pub open spec fn insert_loan_fault(self, member_id: int, book_id: int) -> Option<RepoError> {
        if !self.ready() {
            Some(RepoError::TransactionFailure)
        } else if self.on_loan(member_id, book_id) {
            Some(RepoError::Conflict)
        } else if !self.has_member(member_id) || !self.has_book(book_id) {
            Some(RepoError::ConstraintViolation)
        } else {
            None
        }
    }

    /// The store with one more loan.
    pub open spec fn with_loan(self, member_id: int, book_id: int, borrowed_at: Seq<char>) -> StoreState {
        StoreState {
            borrowed_books: self.borrowed_books.push(LoanRow { member_id, book_id, borrowed_at }),
            ..self
        }
    }

    /// The store without the loan of this book to this member.
    pub open spec fn without_loan(self, member_id: int, book_id: int) -> StoreState {
        if self.on_loan(member_id, book_id) {
            StoreState {
                borrowed_books: self.borrowed_books.remove(self.loan_index(member_id, book_id)),
                ..self
            }
        } else {
            self
        }
    }

    /// How many loans have this pair: one or none.
    pub open spec fn count_loans(self, member_id: int, book_id: int) -> int {
        if self.on_loan(member_id, book_id) {
            1
        } else {
            0
        }
    }

    /// The books that the member holds, in catalog order: all of them, or
    /// those of which the given library holds copies.
    pub open spec fn loans_of(self, member_id: int, library_id: Option<int>) -> Seq<BookRow> {
        self.books.filter(
            |b: BookRow|
                self.on_loan(member_id, b.id) && match library_id {
                    None => true,
                    Some(l) => self.holds(l, b.id),
                },
        )
    }

    /// In a valid store no library has anybody on its roster.
    pub proof fn lemma_nobody_is_enrolled(self, library_id: int)
        requires
            self.wf(),
        ensures
            self.members_of_library(library_id) == Seq::<MemberRow>::empty(),
            forall|member_id: int| !self.enrolled(library_id, member_id),
    {
        let on_roster = |m: MemberRow| self.enrolled(library_id, m.id);
        crate::sequences::lemma_filter_none(self.members, on_roster);
    }

    /// A member under the next id keeps the store valid and is then found.
    pub proof fn lemma_with_member_wf(
        self,
        name: Seq<char>,
        email: Seq<char>,
        created_at: Seq<char>,
        updated_at: Seq<char>,
    )
        requires
            self.wf(),
            self.last_member_id < i32::MAX,
        ensures
            self.with_member(name, email, created_at, updated_at).wf(),
            self.with_member(name, email, created_at, updated_at).has_member(
                self.last_member_id + 1,
            ),
            !self.has_member(self.last_member_id + 1),
    {
        let next = self.with_member(name, email, created_at, updated_at);
        let n = self.members.len() as int;
        assert(next.members[n].id == self.last_member_id + 1);
        assert forall|i: int| 0 <= i < next.members.len() implies 1 <= (
        #[trigger] next.members[i]).id <= next.last_member_id by {
            if i < n {
                assert(next.members[i] == self.members[i]);
            }
        }
        assert forall|i: int, j: int| 0 <= i < j < next.members.len() implies (
        #[trigger] next.members[i]).id < (#[trigger] next.members[j]).id by {
            assert(next.members[i] == self.members[i]);
            if j < n {
                assert(next.members[j] == self.members[j]);
            }
        }
        assert(next.entities_wf());
        assert(next.joins_wf());
    }

    /// A change of a member keeps the store valid.
    pub proof fn lemma_with_member_changed_wf(
        self,
        id: int,
        name: Seq<char>,
        email: Seq<char>,
        now: Seq<char>,
    )
        requires
            self.wf(),
        ensures
            self.with_member_changed(id, name, email, now).wf(),
    {
        let next = self.with_member_changed(id, name, email, now);
        assert forall|i: int| 0 <= i < next.members.len() implies 1 <= (
        #[trigger] next.members[i]).id <= next.last_member_id by {
            assert(next.members[i].id == self.members[i].id);
        }
        assert forall|i: int, j: int| 0 <= i < j < next.members.len() implies (
        #[trigger] next.members[i]).id < (#[trigger] next.members[j]).id by {
            assert(next.members[i].id == self.members[i].id);
            assert(next.members[j].id == self.members[j].id);
        }
        assert(next.entities_wf());
        assert(next.joins_wf());
    }

    /// Striking a member keeps the store valid, and the member is gone.
    pub proof fn lemma_without_member_wf(self, id: int)
        requires
            self.wf(),
        ensures
            self.without_member(id).wf(),
            !self.without_member(id).has_member(id),
    {
        let next = self.without_member(id);
        if self.has_member(id) {
            let at = self.member_index(id);
            assert forall|i: int| 0 <= i < next.members.len() implies 1 <= (
            #[trigger] next.members[i]).id <= next.last_member_id && next.members[i].id
                != id by {
                if i < at {
                    assert(next.members[i] == self.members[i]);
                } else {
                    assert(next.members[i] == self.members[i + 1]);
                }
            }
            assert forall|i: int, j: int| 0 <= i < j < next.members.len() implies (
            #[trigger] next.members[i]).id < (#[trigger] next.members[j]).id by {
                let oi = if i < at { i } else { i + 1 };
                let oj = if j < at { j } else { j + 1 };
                assert(next.members[i] == self.members[oi]);
                assert(next.members[j] == self.members[oj]);
            }
            assert(next.entities_wf());
            assert(next.joins_wf());
        }
    }

    /// A loan of an existing book to an existing member, where there was
    /// none, keeps the store valid and is then found; every other pair is on
    /// loan as before.
    pub proof fn lemma_with_loan_wf(self, member_id: int, book_id: int, borrowed_at: Seq<char>)
        requires
            self.wf(),
            !self.on_loan(member_id, book_id),
            self.has_member(member_id),
            self.has_book(book_id),
        ensures
            self.with_loan(member_id, book_id, borrowed_at).wf(),
            self.with_loan(member_id, book_id, borrowed_at).on_loan(member_id, book_id),
            forall|m: int, b: int|
                !(m == member_id && b == book_id) ==> self.with_loan(
                    member_id,
                    book_id,
                    borrowed_at,
                ).on_loan(m, b) == self.on_loan(m, b),
    {
        let next = self.with_loan(member_id, book_id, borrowed_at);
        let n = self.borrowed_books.len() as int;
        assert(next.borrowed_books[n] == LoanRow { member_id, book_id, borrowed_at });
        let mi = self.member_index(member_id);
        assert(1 <= self.members[mi].id <= self.last_member_id);
        let bi = self.book_index(book_id);
        assert(1 <= self.books[bi].id <= self.last_book_id);
        assert forall|i: int| 0 <= i < next.borrowed_books.len() implies {
            &&& 1 <= (#[trigger] next.borrowed_books[i]).member_id <= next.last_member_id
            &&& 1 <= next.borrowed_books[i].book_id <= next.last_book_id
        } by {
            if i < n {
                assert(next.borrowed_books[i] == self.borrowed_books[i]);
            }
        }
        assert forall|i: int, j: int| 0 <= i < j < next.borrowed_books.len() implies !((
        #[trigger] next.borrowed_books[i]).member_id == (
        #[trigger] next.borrowed_books[j]).member_id && next.borrowed_books[i].book_id
            == next.borrowed_books[j].book_id) by {
            assert(next.borrowed_books[i] == self.borrowed_books[i]);
            if j < n {
                assert(next.borrowed_books[j] == self.borrowed_books[j]);
            }
        }
        assert(next.joins_wf());
        assert(next.entities_wf());
        assert forall|m: int, b: int| !(m == member_id && b == book_id) implies next.on_loan(m, b)
            == self.on_loan(m, b) by {
            if self.on_loan(m, b) {
                let i = self.loan_index(m, b);
                assert(next.borrowed_books[i] == self.borrowed_books[i]);
            }
            if next.on_loan(m, b) {
                let i = next.loan_index(m, b);
                assert(i < n);
                assert(next.borrowed_books[i] == self.borrowed_books[i]);
            }
        }
    }

    /// Striking a loan keeps the store valid, and the pair is then not on
    /// loan; every other pair is on loan as before.
    pub proof fn lemma_without_loan_wf(self, member_id: int, book_id: int)
        requires
            self.wf(),
        ensures
            self.without_loan(member_id, book_id).wf(),
            !self.without_loan(member_id, book_id).on_loan(member_id, book_id),
            forall|m: int, b: int|
                !(m == member_id && b == book_id) ==> self.without_loan(member_id, book_id).on_loan(
                    m,
                    b,
                ) == self.on_loan(m, b),
    {
        let next = self.without_loan(member_id, book_id);
        if self.on_loan(member_id, book_id) {
            let at = self.loan_index(member_id, book_id);
            assert forall|i: int| 0 <= i < next.borrowed_books.len() implies {
                &&& 1 <= (#[trigger] next.borrowed_books[i]).member_id <= next.last_member_id
                &&& 1 <= next.borrowed_books[i].book_id <= next.last_book_id
                &&& !(next.borrowed_books[i].member_id == member_id && next.borrowed_books[i].book_id
                    == book_id)
            } by {
                if i < at {
                    assert(next.borrowed_books[i] == self.borrowed_books[i]);
                } else {
                    assert(next.borrowed_books[i] == self.borrowed_books[i + 1]);
                }
            }
            assert forall|i: int, j: int| 0 <= i < j < next.borrowed_books.len() implies !((
            #[trigger] next.borrowed_books[i]).member_id == (
            #[trigger] next.borrowed_books[j]).member_id && next.borrowed_books[i].book_id
                == next.borrowed_books[j].book_id) by {
                let oi = if i < at { i } else { i + 1 };
                let oj = if j < at { j } else { j + 1 };
                assert(next.borrowed_books[i] == self.borrowed_books[oi]);
                assert(next.borrowed_books[j] == self.borrowed_books[oj]);
            }
            assert(next.joins_wf());
            assert(next.entities_wf());
            assert forall|m: int, b: int| !(m == member_id && b == book_id) implies next.on_loan(
                m,
                b,
            ) == self.on_loan(m, b) by {
                if self.on_loan(m, b) {
                    let i = self.loan_index(m, b);
                    let ni = if i < at { i } else { i - 1 };
                    assert(next.borrowed_books[ni] == self.borrowed_books[i]);
                }
                if next.on_loan(m, b) {
                    let i = next.loan_index(m, b);
                    let oi = if i < at { i } else { i + 1 };
                    assert(next.borrowed_books[i] == self.borrowed_books[oi]);
                }
            }
        }
    }
}

impl Store {
    /// Inserts one row into the members and gives the number of rows
    /// inserted. The store picks the id.
    pub fn insert_member(&mut self, row: &NewMember) -> (inserted: Result<usize, RepoError>)
        requires
            old(self).wf(),
        ensures
            final(self).wf(),
            match old(self)@.create_member_fault() {
                Some(e) => inserted == Err::<usize, RepoError>(e) && final(self)@ == old(self)@,
                None => inserted == Ok::<usize, RepoError>(1) && final(self)@ == old(
                    self,
                )@.with_member(row.name@, row.email@, row.created_at@, row.updated_at@),
            },
    {
        if !self.is_ready() {
            return Err(RepoError::TransactionFailure);
        }
        if self.last_member_id == i32::MAX {
            return Err(RepoError::TransactionFailure);
        }
        let id: i32 = self.last_member_id + 1;
        let member = Member {
            id,
            name: row.name.to_owned(),
            email: row.email.to_owned(),
            created_at: row.created_at.to_owned(),
            updated_at: row.updated_at.to_owned(),
        };
        self.members.push(member);
        self.last_member_id = id;
        proof {
            assert(self@.members =~= old(self)@.members.push(member@));
            old(self)@.lemma_with_member_wf(
                row.name@,
                row.email@,
                row.created_at@,
                row.updated_at@,
            );
        }
        Ok(1)
    }

    /// Enrols a member as `create_member` does, with `now` for the time.
    pub fn create_member_at(&mut self, name: &str, email: &str, now: &str) -> (created: Result<
        i32,
        RepoError,
    >)
        requires
            old(self).wf(),
        ensures
            final(self).wf(),
            match old(self)@.create_member_fault() {
                Some(e) => created == Err::<i32, RepoError>(e) && final(self)@ == old(self)@,
                None => created == Ok::<i32, RepoError>((old(self)@.last_member_id + 1) as i32)
                    && final(self)@ == old(self)@.with_member(name@, email@, now@, now@),
            },
    {
        let new_member = NewMember { name, email, created_at: now, updated_at: now };
        match self.insert_member(&new_member) {
            Ok(_) => Ok(self.last_member_id),
            Err(e) => Err(e),
        }
    }

    /// Changes a member as `update_member` does, with `now` for the time.
    pub fn update_member_at(&mut self, id: &i32, name: &str, email: &str, now: &str) -> (updated:
        Result<usize, RepoError>)
        requires
            old(self).wf(),
        ensures
            final(self).wf(),
            match old(self)@.schema_fault() {
                Some(e) => updated == Err::<usize, RepoError>(e) && final(self)@ == old(self)@,
                None => updated == Ok::<usize, RepoError>(
                    old(self)@.count_members(*id as int) as usize,
                ) && final(self)@ == old(self)@.with_member_changed(
                    *id as int,
                    name@,
                    email@,
                    now@,
                ),
            },
    {
        if !self.is_ready() {
            return Err(RepoError::TransactionFailure);
        }
        proof {
            old(self)@.lemma_with_member_changed_wf(*id as int, name@, email@, now@);
        }
        match self.member_position(*id) {
            None => {
                proof {
                    assert(self@.members =~= old(self)@.with_member_changed(
                        *id as int,
                        name@,
                        email@,
                        now@,
                    ).members);
                }
                Ok(0)
            },
            Some(i) => {
                let changed = Member {
                    id: self.members[i].id,
                    name: name.to_owned(),
                    email: email.to_owned(),
                    created_at: self.members[i].created_at.clone(),
                    updated_at: now.to_owned(),
                };
                self.members.set(i, changed);
                proof {
                    assert(self@.members =~= old(self)@.with_member_changed(
                        *id as int,
                        name@,
                        email@,
                        now@,
                    ).members);
                }
                Ok(1)
            },
        }
    }

    /// Inserts one row into the ledger and gives the number of rows
    /// inserted. A pair that is there already is a conflict; a member or a
    /// book that is not there is a constraint violation.
    pub fn insert_borrowed_book(&mut self, row: &NewBorrowedBook) -> (inserted: Result<
        usize,
        RepoError,
    >)
        requires
            old(self).wf(),
        ensures
            final(self).wf(),
            match old(self)@.insert_loan_fault(*row.member_id as int, *row.book_id as int) {
                Some(e) => inserted == Err::<usize, RepoError>(e) && final(self)@ == old(self)@,
                None => inserted == Ok::<usize, RepoError>(1) && final(self)@ == old(
                    self,
                )@.with_loan(*row.member_id as int, *row.book_id as int, row.borrowed_at@),
            },
    {
        if !self.is_ready() {
            return Err(RepoError::TransactionFailure);
        }
        let member_id: i32 = *row.member_id;
        let book_id: i32 = *row.book_id;
        if self.loan_position(member_id, book_id).is_some() {
            return Err(RepoError::Conflict);
        }
        if self.member_position(member_id).is_none() || self.book_position(book_id).is_none() {
            return Err(RepoError::ConstraintViolation);
        }
        let loan = BorrowedBook { member_id, book_id, borrowed_at: row.borrowed_at.to_owned() };
        self.borrowed_books.push(loan);
        proof {
            assert(self@.borrowed_books =~= old(self)@.borrowed_books.push(loan@));
            old(self)@.lemma_with_loan_wf(member_id as int, book_id as int, row.borrowed_at@);
        }
        Ok(1)
    }

    /// Enters a loan as `borrow_book` does, with `now` for the time.
    pub fn borrow_book_at(&mut self, member_id: &i32, book_id: &i32, now: &str) -> (borrowed: Result<
        usize,
        RepoError,
    >)
        requires
            old(self).wf(),
        ensures
            final(self).wf(),
            match old(self)@.insert_loan_fault(*member_id as int, *book_id as int) {
                Some(e) => borrowed == Err::<usize, RepoError>(e) && final(self)@ == old(self)@,
                None => borrowed == Ok::<usize, RepoError>(1) && final(self)@ == old(
                    self,
                )@.with_loan(*member_id as int, *book_id as int, now@),
            },
    {
        let new_borrow = NewBorrowedBook { member_id, book_id, borrowed_at: now };
        self.insert_borrowed_book(&new_borrow)
    }

    /// Copies of all members, in the order of their ids.
    pub(crate) fn copy_members(&self) -> (found: Vec<Member>)
        ensures
            member_rows(found@) == self@.members,
    {
        let mut found: Vec<Member> = Vec::new();
        let mut i: usize = 0;
        while i < self.members.len()
            invariant
                i <= self.members.len(),
                member_rows(found@) =~= self@.members.take(i as int),
            decreases self.members.len() - i,
        {
            let copy = self.members[i].clone();
            let ghost earlier = found@;
            found.push(copy);
            proof {
                assert(self@.members[i as int] == self.members@[i as int]@);
                assert(member_rows(found@) =~= member_rows(earlier).push(copy@));
                self@.members.lemma_take_succ_push(i as int);
            }
            i += 1;
        }
        proof {
            assert(self@.members.take(i as int) =~= self@.members);
        }
        found
    }

    /// The ids of the members on the library's roster.
    pub(crate) fn enrolled_member_ids(&self, library_id: i32) -> (ids: Vec<i32>)
        ensures
            forall|id: int| id_listed(ids@, id) <==> self@.enrolled(library_id as int, id),
    {
        let mut ids: Vec<i32> = Vec::new();
        let mut i: usize = 0;
        while i < self.library_members.len()
            invariant
                i <= self.library_members.len(),
                forall|k: int|
                    0 <= k < ids@.len() ==> self@.enrolled(
                        library_id as int,
                        #[trigger] ids@[k] as int,
                    ),
                forall|j: int|
                    0 <= j < i && (#[trigger] self@.library_members[j]).library_id == library_id
                        ==> id_listed(ids@, self@.library_members[j].member_id),
            decreases self.library_members.len() - i,
        {
            if self.library_members[i].library_id == library_id {
                let ghost earlier = ids@;
                let member_id: i32 = self.library_members[i].member_id;
                ids.push(member_id);
                proof {
                    assert(self@.library_members[i as int].library_id == library_id);
                    assert(ids@[earlier.len() as int] == member_id);
                    assert forall|j: int|
                        0 <= j < i + 1 && (#[trigger] self@.library_members[j]).library_id
                            == library_id implies id_listed(
                        ids@,
                        self@.library_members[j].member_id,
                    ) by {
                        if j < i {
                            let k = choose|k: int|
                                0 <= k < earlier.len() && #[trigger] earlier[k]
                                    == self@.library_members[j].member_id;
                            assert(ids@[k] == earlier[k]);
                        }
                    }
                }
            }
            i += 1;
        }
        proof {
            assert forall|id: int| self@.enrolled(library_id as int, id) implies id_listed(
                ids@,
                id,
            ) by {
                let j = choose|j: int|
                    0 <= j < self@.library_members.len() && (
                    #[trigger] self@.library_members[j]).library_id == library_id
                        && self@.library_members[j].member_id == id;
                assert(self@.library_members[j].library_id == library_id);
            }
        }
        ids
    }

    /// Copies of the members whose ids stand in the list, in the order of
    /// their ids.
    pub(crate) fn members_with_ids(&self, ids: &Vec<i32>) -> (found: Vec<Member>)
        ensures
            member_rows(found@) == self@.members_among(ids@),
    {
        let ghost keep = |m: MemberRow| id_listed(ids@, m.id);
        let mut found: Vec<Member> = Vec::new();
        let mut i: usize = 0;
        proof {
            assert(self@.members.take(0) =~= Seq::empty());
            reveal(Seq::filter);
            assert(member_rows(found@) =~= self@.members.take(0).filter(keep));
        }
        while i < self.members.len()
            invariant
                i <= self.members.len(),
                keep == |m: MemberRow| id_listed(ids@, m.id),
                member_rows(found@) == self@.members.take(i as int).filter(keep),
            decreases self.members.len() - i,
        {
            let listed = list_has(ids, self.members[i].id);
            proof {
                self@.members.lemma_take_succ_push(i as int);
                self@.members.take(i as int).lemma_filter_push(self@.members[i as int], keep);
                assert(self@.members[i as int] == self.members@[i as int]@);
                assert(listed == keep(self@.members[i as int]));
            }
            if listed {
                let copy = self.members[i].clone();
                let ghost earlier = found@;
                found.push(copy);
                proof {
                    assert(member_rows(found@) =~= member_rows(earlier).push(copy@));
                }
            }
            i += 1;
        }
        proof {
            assert(self@.members.take(i as int) =~= self@.members);
        }
        found
    }

    /// The ids of the books that the member holds.
    pub(crate) fn borrowed_book_ids(&self, member_id: i32) -> (ids: Vec<i32>)
        ensures
            forall|id: int| id_listed(ids@, id) <==> self@.on_loan(member_id as int, id),
    {
        let mut ids: Vec<i32> = Vec::new();
        let mut i: usize = 0;
        while i < self.borrowed_books.len()
            invariant
                i <= self.borrowed_books.len(),
                forall|k: int|
                    0 <= k < ids@.len() ==> self@.on_loan(member_id as int, #[trigger] ids@[k] as int),
                forall|j: int|
                    0 <= j < i && (#[trigger] self@.borrowed_books[j]).member_id == member_id
                        ==> id_listed(ids@, self@.borrowed_books[j].book_id),
            decreases self.borrowed_books.len() - i,
        {
            if self.borrowed_books[i].member_id == member_id {
                let ghost earlier = ids@;
                let book_id: i32 = self.borrowed_books[i].book_id;
                ids.push(book_id);
                proof {
                    assert(self@.borrowed_books[i as int].member_id == member_id);
                    assert(ids@[earlier.len() as int] == book_id);
                    assert forall|j: int|
                        0 <= j < i + 1 && (#[trigger] self@.borrowed_books[j]).member_id
                            == member_id implies id_listed(
                        ids@,
                        self@.borrowed_books[j].book_id,
                    ) by {
                        if j < i {
                            let k = choose|k: int|
                                0 <= k < earlier.len() && #[trigger] earlier[k]
                                    == self@.borrowed_books[j].book_id;
                            assert(ids@[k] == earlier[k]);
                        }
                    }
                }
            }
            i += 1;
        }
        proof {
            assert forall|id: int| self@.on_loan(member_id as int, id) implies id_listed(
                ids@,
                id,
            ) by {
                let j = self@.loan_index(member_id as int, id);
                assert(self@.borrowed_books[j].member_id == member_id);
            }
        }
        ids
    }

    /// Those ids of the list that the library holds.
    pub(crate) fn held_among(&self, library_id: i32, book_ids: &Vec<i32>) -> (ids: Vec<i32>)
        ensures
            forall|id: int|
                id_listed(ids@, id) <==> (self@.holds(library_id as int, id) && id_listed(
                    book_ids@,
                    id,
                )),
    {
        let mut ids: Vec<i32> = Vec::new();
        let mut i: usize = 0;
        while i < self.library_books.len()
            invariant
                i <= self.library_books.len(),
                forall|k: int|
                    0 <= k < ids@.len() ==> self@.holds(library_id as int, #[trigger] ids@[k] as int)
                        && id_listed(book_ids@, ids@[k] as int),
                forall|j: int|
                    0 <= j < i && (#[trigger] self@.library_books[j]).library_id == library_id
                        && id_listed(book_ids@, self@.library_books[j].book_id) ==> id_listed(
                        ids@,
                        self@.library_books[j].book_id,
                    ),
            decreases self.library_books.len() - i,
        {
            if self.library_books[i].library_id == library_id && list_has(
                book_ids,
                self.library_books[i].book_id,
            ) {
                let ghost earlier = ids@;
                let book_id: i32 = self.library_books[i].book_id;
                ids.push(book_id);
                proof {
                    assert(self@.library_books[i as int].library_id == library_id);
                    assert(ids@[earlier.len() as int] == book_id);
                    assert forall|j: int|
                        0 <= j < i + 1 && (#[trigger] self@.library_books[j]).library_id
                            == library_id && id_listed(
                            book_ids@,
                            self@.library_books[j].book_id,
                        ) implies id_listed(ids@, self@.library_books[j].book_id) by {
                        if j < i {
                            let k = choose|k: int|
                                0 <= k < earlier.len() && #[trigger] earlier[k]
                                    == self@.library_books[j].book_id;
                            assert(ids@[k] == earlier[k]);
                        }
                    }
                }
            }
            i += 1;
        }
        proof {
            assert forall|id: int|
                self@.holds(library_id as int, id) && id_listed(book_ids@, id) implies id_listed(
                ids@,
                id,
            ) by {
                let j = self@.holding_index(library_id as int, id);
                assert(self@.library_books[j].library_id == library_id);
            }
        }
        ids
    }
}

impl MemberRepositoryTrait for Store {
    open spec fn valid(&self) -> bool {
        self.wf()
    }

    open spec fn content(&self) -> StoreState {
        self@
    }

    /// Exactly what `create_member` gives and leaves behind.
    open spec fn creates_member(
        &self,
        name: Seq<char>,
        email: Seq<char>,
        after: StoreState,
        created: Result<i32, RepoError>,
    ) -> bool {
        &&& match self@.create_member_fault() {
            Some(e) => created == Err::<i32, RepoError>(e) && after == self@,
            None => created == Ok::<i32, RepoError>((self@.last_member_id + 1) as i32)
                && exists|now: Seq<char>|
                after == #[trigger] self@.with_member(name, email, now, now),
        }
    }

    /// Enrols a member, with the current time for both timestamps, and gives
    /// the member's id.
    ///
    /// The time is read from the machine's clock; where that clock stands
    /// before 1970 the call panics.
    fn create_member(&mut self, name: &str, email: &str) -> (created: Result<i32, RepoError>)
    {
        let now = utc_timestamp();
        self.create_member_at(name, email, now.as_str())
    }

    /// Exactly what `get_members` gives and leaves behind.
    open spec fn lists_members(
        &self,
        after: StoreState,
        found: Result<Vec<Member>, RepoError>,
    ) -> bool {
        &&& after == self@
        &&& match self@.schema_fault() {
            Some(e) => found matches Err(x) && x == e,
            None => found matches Ok(members) && member_rows(members@) == self@.members,
        }
    }

    /// All members, in the order of their ids.
    fn get_members(&mut self) -> (found: Result<Vec<Member>, RepoError>)
    {
        if !self.is_ready() {
            return Err(RepoError::TransactionFailure);
        }
        Ok(self.copy_members())
    }

    /// Exactly what `get_member_by_id` gives and leaves behind.
    open spec fn finds_member(
        &self,
        id: int,
        after: StoreState,
        found: Result<Member, RepoError>,
    ) -> bool {
        &&& after == self@
        &&& match self@.find_member(id) {
            Ok(row) => found matches Ok(member) && member@ == row,
            Err(e) => found matches Err(x) && x == e,
        }
    }

    /// The member with this id; `NotFound` where there is none.
    fn get_member_by_id(&mut self, id: &i32) -> (found: Result<Member, RepoError>)
    {
        if !self.is_ready() {
            return Err(RepoError::TransactionFailure);
        }
        match self.member_position(*id) {
            None => Err(RepoError::NotFound),
            Some(i) => Ok(self.members[i].clone()),
        }
    }

    /// Exactly what `update_member` gives and leaves behind.
    open spec fn updates_member(
        &self,
        id: int,
        name: Seq<char>,
        email: Seq<char>,
        after: StoreState,
        updated: Result<usize, RepoError>,
    ) -> bool {
        &&& match self@.schema_fault() {
            Some(e) => updated == Err::<usize, RepoError>(e) && after == self@,
            None => updated == Ok::<usize, RepoError>(
                self@.count_members(id) as usize,
            ) && exists|now: Seq<char>|
                after == #[trigger] self@.with_member_changed(
                    id,
                    name,
                    email,
                    now,
                ),
        }
    }

    /// Sets the name and the email of the member with this id, and the time
    /// of the update to the current time; gives the number of rows changed:
    /// 1, or 0 where no member has the id.
    ///
    /// The time is read from the machine's clock; where that clock stands
    /// before 1970 the call panics.
    fn update_member(&mut self, id: &i32, name: &str, email: &str) -> (updated: Result<
        usize,
        RepoError,
    >)
    {
        let now = utc_timestamp();
        self.update_member_at(id, name, email, now.as_str())
    }

    /// Exactly what `delete_member` gives and leaves behind.
    open spec fn deletes_member(
        &self,
        id: int,
        after: StoreState,
        deleted: Result<usize, RepoError>,
    ) -> bool {
        &&& match self@.schema_fault() {
            Some(e) => deleted == Err::<usize, RepoError>(e) && after == self@,
            None => deleted == Ok::<usize, RepoError>(
                self@.count_members(id) as usize,
            ) && after == self@.without_member(id),
        }
    }

    /// Deletes the member with this id and gives the number of rows
    /// deleted: 1, or 0 where no member has the id. Only the members change:
    /// the member's loans stay, and refer to a member who is gone.
    fn delete_member(&mut self, id: &i32) -> (deleted: Result<usize, RepoError>)
    {
        if !self.is_ready() {
            return Err(RepoError::TransactionFailure);
        }
        proof {
            old(self)@.lemma_without_member_wf(*id as int);
        }
        match self.member_position(*id) {
            None => Ok(0),
            Some(i) => {
                self.members.remove(i);
                proof {
                    assert(self@.members =~= old(self)@.members.remove(i as int));
                }
                Ok(1)
            },
        }
    }

    /// Exactly what `get_members_by_library_id` gives and leaves behind.
    open spec fn lists_members_of_library(
        &self,
        library_id: int,
        after: StoreState,
        found: Result<Vec<Member>, RepoError>,
    ) -> bool {
        &&& after == self@
        &&& match self@.schema_fault() {
            Some(e) => found matches Err(x) && x == e,
            None => found matches Ok(members) && member_rows(members@) == self@.members_of_library(library_id) && members@.len() == 0,
        }
    }

    /// The members on the library's roster, in the order of their ids: first
    /// the ids that the roster gives for the library, then the members with
    /// those ids. No operation enters anybody on a roster, so there are
    /// none.
    fn get_members_by_library_id(&mut self, library_id: &i32) -> (found: Result<
        Vec<Member>,
        RepoError,
    >)
    {
        if !self.is_ready() {
            return Err(RepoError::TransactionFailure);
        }
        let member_ids = self.enrolled_member_ids(*library_id);
        let members = self.members_with_ids(&member_ids);
        proof {
            lemma_filter_agree(
                self@.members,
                |m: MemberRow| id_listed(member_ids@, m.id),
                |m: MemberRow| self@.enrolled(*library_id as int, m.id),
            );
            self@.lemma_nobody_is_enrolled(*library_id as int);
            assert(member_rows(members@).len() == 0);
            assert(members@.len() == member_rows(members@).len());
        }
        Ok(members)
    }

    /// Exactly what `borrow_book` gives and leaves behind.
    open spec fn borrows_book(
        &self,
        member_id: int,
        book_id: int,
        after: StoreState,
        borrowed: Result<usize, RepoError>,
    ) -> bool {
        &&& match self@.insert_loan_fault(member_id, book_id) {
            Some(e) => borrowed == Err::<usize, RepoError>(e) && after == self@,
            None => borrowed == Ok::<usize, RepoError>(1) && exists|now: Seq<char>|
                after == #[trigger] self@.with_loan(
                    member_id,
                    book_id,
                    now,
                ),
        }
    }

    /// Enters the loan of the book to the member in the ledger, with the
    /// current time, and gives the number of rows inserted. A member who
    /// holds the book already is a conflict. The copies that libraries hold
    /// of the book are neither counted nor changed.
    ///
    /// The time is read from the machine's clock; where that clock stands
    /// before 1970 the call panics.
    fn borrow_book(&mut self, member_id: &i32, book_id: &i32) -> (borrowed: Result<
        usize,
        RepoError,
    >)
    {
        let now = utc_timestamp();
        self.borrow_book_at(member_id, book_id, now.as_str())
    }

    /// Exactly what `return_book` gives and leaves behind.
    open spec fn returns_book(
        &self,
        member_id: int,
        book_id: int,
        after: StoreState,
        returned: Result<usize, RepoError>,
    ) -> bool {
        &&& match self@.schema_fault() {
            Some(e) => returned == Err::<usize, RepoError>(e) && after == self@,
            None => returned == Ok::<usize, RepoError>(
                self@.count_loans(member_id, book_id) as usize,
            ) && after == self@.without_loan(member_id, book_id),
        }
    }

    /// Strikes the loan of the book to the member from the ledger and gives
    /// the number of rows deleted: 1, or 0 where the member does not hold
    /// the book.
    fn return_book(&mut self, member_id: &i32, book_id: &i32) -> (returned: Result<
        usize,
        RepoError,
    >)
    {
        if !self.is_ready() {
            return Err(RepoError::TransactionFailure);
        }
        proof {
            old(self)@.lemma_without_loan_wf(*member_id as int, *book_id as int);
        }
        match self.loan_position(*member_id, *book_id) {
            None => Ok(0),
            Some(i) => {
                self.borrowed_books.remove(i);
                proof {
                    assert(self@.borrowed_books =~= old(self)@.borrowed_books.remove(i as int));
                }
                Ok(1)
            },
        }
    }

    /// Exactly what `get_borrowed_books` gives and leaves behind.
    open spec fn lists_borrowed_books(
        &self,
        member_id: int,
        library_id: Option<i32>,
        after: StoreState,
        found: Result<Vec<Book>, RepoError>,
    ) -> bool {
        &&& after == self@
        &&& match self@.schema_fault() {
            Some(e) => found matches Err(x) && x == e,
            None => found matches Ok(books) && book_rows(books@) == self@.loans_of(
                member_id,
                match library_id {
                    None => None,
                    Some(l) => Some(l as int),
                },
            ),
        }
    }

    /// The books that the member holds, in the order of their ids: with
    /// `None` all of them, with a library those of which the library holds
    /// copies. First the ids that the ledger gives for the member, then,
    /// with a library, those of them that its holdings give, then the books
    /// with those ids.
    fn get_borrowed_books(&mut self, member_id: &i32, library_id: Option<i32>) -> (found: Result<
        Vec<Book>,
        RepoError,
    >)
    {
        if !self.is_ready() {
            return Err(RepoError::TransactionFailure);
        }
        let borrowed_ids = self.borrowed_book_ids(*member_id);
        let book_ids = match library_id {
            None => borrowed_ids,
            Some(l) => self.held_among(l, &borrowed_ids),
        };
        let books = self.books_with_ids(&book_ids);
        proof {
            let wanted: Option<int> = match library_id {
                None => None,
                Some(l) => Some(l as int),
            };
            lemma_filter_agree(
                self@.books,
                |b: BookRow| id_listed(book_ids@, b.id),
                |b: BookRow|
                    self@.on_loan(*member_id as int, b.id) && match wanted {
                        None => true,
                        Some(l) => self@.holds(l, b.id),
                    },
            );
        }
        Ok(books)
    }
}

} // verus!
