//! What holds of the operations taken together. Each law is stated over the
//! store as a value and over the same functions of it that the operations'
//! own contracts use.

use crate::error::RepoError;
use crate::models::book::{BookRow, HoldingRow, LoanRow};
use crate::schema::Relation;
use crate::sequences::{lemma_filter_agree, lemma_filter_members, lemma_filter_twice, lemma_filter_none};
use crate::state::StoreState;
use vstd::prelude::*;

verus! {

/// Where the schema exists, the library is there and an id is left, a
/// creation goes through: it adds one book to the catalog and one holding,
/// that of the new book by its library with one copy, and changes nothing
/// else. The book is then found under the id that the creation gave, with
/// the title and the author that were given, and stands among the books of
/// its library.
pub proof fn law_created_book_is_found(
    s: StoreState,
    title: Seq<char>,
    author: Seq<char>,
    library_id: int,
    now: Seq<char>,
)
    requires
        s.wf(),
        s.ready(),
        s.has_library(library_id),
        s.last_book_id < i32::MAX,
    ensures
        s.create_book_fault(library_id) is None,
        s.with_new_book(title, author, library_id, now).wf(),
        s.with_new_book(title, author, library_id, now) == (StoreState {
            books: s.books.push(
                BookRow {
                    id: s.last_book_id + 1,
                    title,
                    author,
                    created_at: now,
                    updated_at: now,
                },
            ),
            library_books: s.library_books.push(
                HoldingRow { library_id, book_id: s.last_book_id + 1, quantity: 1 },
            ),
            last_book_id: s.last_book_id + 1,
            ..s
        }),
        s.with_new_book(title, author, library_id, now).find_book(s.last_book_id + 1) == Ok::<
            BookRow,
            RepoError,
        >(
            BookRow {
                id: s.last_book_id + 1,
                title,
                author,
                created_at: now,
                updated_at: now,
            },
        ),
        s.with_new_book(title, author, library_id, now).books_of_library(library_id).contains(
            BookRow {
                id: s.last_book_id + 1,
                title,
                author,
                created_at: now,
                updated_at: now,
            },
        ),
        s.with_new_book(title, author, library_id, now).holds(library_id, s.last_book_id + 1),
        s.with_new_book(title, author, library_id, now).quantity(library_id, s.last_book_id + 1)
            == 1,
{
    let id = s.last_book_id + 1;
    let row = BookRow { id, title, author, created_at: now, updated_at: now };
    let s1 = s.with_book(title, author, now, now);
    let s2 = s.with_new_book(title, author, library_id, now);
    s.lemma_with_book_wf(title, author, now, now);
    s.lemma_holding_after_book(title, author, library_id, now);
    s1.lemma_with_holding_wf(library_id, id, 1);
    let n = s.books.len() as int;
    assert(s2.books[n] == row);
    assert(s2.has_book(id));
    let at = s2.book_index(id);
    assert(at == n) by {
        if at < n {
            assert(s2.books[at].id < s2.books[n].id);
        }
    }
    let held = |b: BookRow| s2.holds(library_id, b.id);
    assert(held(s2.books[n]));
    s2.books.lemma_filter_contains(held, n);
}

/// A creation for a library that is not there fails, whatever else holds.
/// (That a failed creation leaves the store as it was, the catalog with it,
/// is part of the creation's own contract.)
pub proof fn law_creation_needs_its_library(s: StoreState, library_id: int)
    requires
        s.wf(),
        !s.has_library(library_id),
    ensures
        s.create_book_fault(library_id) is Some,
{
}

/// After a loan was entered, entering it again is a conflict, and the ledger
/// has exactly one row for the pair.
pub proof fn law_second_borrow_conflicts(s: StoreState, member_id: int, book_id: int, now: Seq<char>)
    requires
        s.wf(),
        s.insert_loan_fault(member_id, book_id) is None,
    ensures
        s.with_loan(member_id, book_id, now).wf(),
        s.with_loan(member_id, book_id, now).insert_loan_fault(member_id, book_id) == Some(
            RepoError::Conflict,
        ),
        s.with_loan(member_id, book_id, now).borrowed_books.filter(
            |r: LoanRow| r.member_id == member_id && r.book_id == book_id,
        ).len() == 1,
{
    let s1 = s.with_loan(member_id, book_id, now);
    s.lemma_with_loan_wf(member_id, book_id, now);
    assert(s1.schema == s.schema);
    let same = |r: LoanRow| r.member_id == member_id && r.book_id == book_id;
    assert forall|i: int| 0 <= i < s.borrowed_books.len() implies !same(
        #[trigger] s.borrowed_books[i],
    ) by {
        if same(s.borrowed_books[i]) {
            assert(s.on_loan(member_id, book_id));
        }
    }
    lemma_filter_none(s.borrowed_books, same);
    s.borrowed_books.lemma_filter_push(LoanRow { member_id, book_id, borrowed_at: now }, same);
}

/// After a loan was entered and struck again, the store is as it was before
/// the loan, so striking the loan once more finds no row and changes
/// nothing: it counts 0, and is no error.
pub proof fn law_second_return_finds_nothing(
    s: StoreState,
    member_id: int,
    book_id: int,
    now: Seq<char>,
)
    requires
        s.wf(),
        s.insert_loan_fault(member_id, book_id) is None,
    ensures
        s.with_loan(member_id, book_id, now).count_loans(member_id, book_id) == 1,
        s.with_loan(member_id, book_id, now).without_loan(member_id, book_id) == s,
        s.schema_fault() is None,
        s.count_loans(member_id, book_id) == 0,
        s.without_loan(member_id, book_id) == s,
{
    let s1 = s.with_loan(member_id, book_id, now);
    s.lemma_with_loan_wf(member_id, book_id, now);
    let n = s.borrowed_books.len() as int;
    let at = s1.loan_index(member_id, book_id);
    assert(at == n) by {
        if at < n {
            assert(s1.borrowed_books[at] == s.borrowed_books[at]);
            assert(s.on_loan(member_id, book_id));
        }
    }
    assert(s1.borrowed_books.remove(n) =~= s.borrowed_books);
}

/// Without a library, a member's loans are all the books of the catalog
/// that the member holds, whichever library holds copies of them; with a
/// library, they are those of these books of which the library holds
/// copies, and no others.
pub proof fn law_loans_by_library(s: StoreState, member_id: int, library_id: int)
    ensures
        forall|b: BookRow|
            s.loans_of(member_id, None).contains(b) <==> s.books.contains(b) && s.on_loan(
                member_id,
                b.id,
            ),
        s.loans_of(member_id, Some(library_id)) == s.loans_of(member_id, None).filter(
            |b: BookRow| s.holds(library_id, b.id),
        ),
        forall|b: BookRow|
            s.loans_of(member_id, Some(library_id)).contains(b) <==> s.loans_of(
                member_id,
                None,
            ).contains(b) && s.holds(library_id, b.id),
{
    let anywhere: Option<int> = None;
    let there: Option<int> = Some(library_id);
    let all = |b: BookRow|
        s.on_loan(member_id, b.id) && match anywhere {
            None => true,
            Some(l) => s.holds(l, b.id),
        };
    let of_library = |b: BookRow|
        s.on_loan(member_id, b.id) && match there {
            None => true,
            Some(l) => s.holds(l, b.id),
        };
    let held = |b: BookRow| s.holds(library_id, b.id);
    assert(s.loans_of(member_id, None) == s.books.filter(all));
    assert(s.loans_of(member_id, Some(library_id)) == s.books.filter(of_library));
    lemma_filter_twice(s.books, all, held);
    lemma_filter_agree(s.books, |b: BookRow| all(b) && held(b), of_library);
    lemma_filter_members(s.books, all);
    lemma_filter_members(s.books.filter(all), held);
}

/// A quantity that is set stands in place of the one before it: after two
/// settings the holding has the second quantity, as if the first had not
/// been made. Where the library does not hold the book, setting a quantity
/// counts 0 rows and changes nothing.
pub proof fn law_quantity_is_overwritten(
    s: StoreState,
    library_id: int,
    book_id: int,
    first: int,
    second: int,
)
    requires
        s.wf(),
    ensures
        s.with_quantity(library_id, book_id, first).with_quantity(library_id, book_id, second)
            == s.with_quantity(library_id, book_id, second),
        s.holds(library_id, book_id) ==> {
            &&& s.count_holdings(library_id, book_id) == 1
            &&& s.with_quantity(library_id, book_id, first).count_holdings(library_id, book_id)
                == 1
            &&& s.with_quantity(library_id, book_id, first).with_quantity(
                library_id,
                book_id,
                second,
            ).quantity(library_id, book_id) == second
        },
        !s.holds(library_id, book_id) ==> {
            &&& s.count_holdings(library_id, book_id) == 0
            &&& s.with_quantity(library_id, book_id, first) == s
        },
{
    let s1 = s.with_quantity(library_id, book_id, first);
    let s2 = s1.with_quantity(library_id, book_id, second);
    s.lemma_with_quantity_wf(library_id, book_id, first);
    s1.lemma_with_quantity_wf(library_id, book_id, second);
    s.lemma_with_quantity_wf(library_id, book_id, second);
    assert(s2.library_books =~= s.with_quantity(library_id, book_id, second).library_books);
    if !s.holds(library_id, book_id) {
        assert forall|i: int| 0 <= i < s.library_books.len() implies s1.library_books[i]
            == s.library_books[i] by {
            if s.library_books[i].library_id == library_id && s.library_books[i].book_id
                == book_id {
                assert(s.holds(library_id, book_id));
            }
        }
        assert(s1.library_books =~= s.library_books);
    }
}

/// Two creations, one after the other, give two different ids; both books
/// are then in the catalog, each with one copy in the holdings of its
/// library, and every holding that was there before is still there, in the
/// quantity it had.
pub proof fn law_successive_creations_are_distinct(
    s: StoreState,
    first_title: Seq<char>,
    first_author: Seq<char>,
    first_library: int,
    first_now: Seq<char>,
    second_title: Seq<char>,
    second_author: Seq<char>,
    second_library: int,
    second_now: Seq<char>,
)
    requires
        s.wf(),
        s.create_book_fault(first_library) is None,
        s.with_new_book(first_title, first_author, first_library, first_now).create_book_fault(
            second_library,
        ) is None,
    ensures
        ({
            let s1 = s.with_new_book(first_title, first_author, first_library, first_now);
            let s2 = s1.with_new_book(second_title, second_author, second_library, second_now);
            let first_id = s.last_book_id + 1;
            let second_id = s1.last_book_id + 1;
            &&& first_id != second_id
            &&& s2.wf()
            &&& s2.has_book(first_id)
            &&& s2.has_book(second_id)
            &&& s2.holds(first_library, first_id)
            &&& s2.holds(second_library, second_id)
            &&& s2.quantity(first_library, first_id) == 1
            &&& s2.quantity(second_library, second_id) == 1
            &&& s2.library_books.len() == s.library_books.len() + 2
            &&& forall|i: int|
                0 <= i < s.library_books.len() ==> s2.library_books[i] == s.library_books[i]
        }),
{
    let s1 = s.with_new_book(first_title, first_author, first_library, first_now);
    let s2 = s1.with_new_book(second_title, second_author, second_library, second_now);
    let first_id = s.last_book_id + 1;
    let second_id = s1.last_book_id + 1;
    law_created_book_is_found(s, first_title, first_author, first_library, first_now);
    law_created_book_is_found(s1, second_title, second_author, second_library, second_now);
    let n = s.library_books.len() as int;
    assert(s2.library_books[n] == HoldingRow {
        library_id: first_library,
        book_id: first_id,
        quantity: 1,
    });
    assert(s2.holds(first_library, first_id));
    let at = s2.holding_index(first_library, first_id);
    assert(at == n);
    let b = s1.books.len() as int - 1;
    assert(s1.books[b].id == first_id);
    assert(s2.books[b] == s1.books[b]);
}

/// A request to create a book, as a value.
pub struct Creation {
    pub title: Seq<char>,
    pub author: Seq<char>,
    pub library_id: int,
    pub now: Seq<char>,
}

/// The store after the creations were made one at a time, each one whole
/// before the next begins, as callers that share the store make them. A
/// creation that fails leaves the store as it was.
pub open spec fn after_creations(s: StoreState, creations: Seq<Creation>) -> StoreState
    decreases creations.len(),
{
    if creations.len() == 0 {
        s
    } else {
        let before = after_creations(s, creations.drop_last());
        let c = creations.last();
        if before.create_book_fault(c.library_id) is None {
            before.with_new_book(c.title, c.author, c.library_id, c.now)
        } else {
            before
        }
    }
}

/// However many creations are made one at a time, and in whatever order
/// they come: each one gives a book of its own, under an id of its own, and
/// one holding of that book by its library with one copy; no book and no
/// holding is lost, and none stands twice.
pub proof fn law_serialized_creations(s: StoreState, creations: Seq<Creation>)
    requires
        s.wf(),
        s.ready(),
        s.last_book_id + creations.len() <= i32::MAX,
        forall|k: int|
            0 <= k < creations.len() ==> s.has_library((#[trigger] creations[k]).library_id),
    ensures
        ({
            let end = after_creations(s, creations);
            &&& end.wf()
            &&& end == (StoreState {
                books: end.books,
                library_books: end.library_books,
                last_book_id: s.last_book_id + creations.len(),
                ..s
            })
            &&& end.books.len() == s.books.len() + creations.len()
            &&& end.library_books.len() == s.library_books.len() + creations.len()
            &&& forall|i: int| 0 <= i < s.books.len() ==> end.books[i] == s.books[i]
            &&& forall|i: int|
                0 <= i < s.library_books.len() ==> end.library_books[i] == s.library_books[i]
            &&& forall|k: int|
                0 <= k < creations.len() ==> end.books[s.books.len() + k] == (BookRow {
                    id: s.last_book_id + 1 + k,
                    title: (#[trigger] creations[k]).title,
                    author: creations[k].author,
                    created_at: creations[k].now,
                    updated_at: creations[k].now,
                })
            &&& forall|k: int|
                0 <= k < creations.len() ==> end.library_books[s.library_books.len() + k] == (
                HoldingRow {
                    library_id: (#[trigger] creations[k]).library_id,
                    book_id: s.last_book_id + 1 + k,
                    quantity: 1,
                })
        }),
    decreases creations.len(),
{
    if creations.len() > 0 {
        let front = creations.drop_last();
        let c = creations.last();
        let n = front.len() as int;
        assert forall|k: int| 0 <= k < front.len() implies s.has_library(
            (#[trigger] front[k]).library_id,
        ) by {
            assert(front[k] == creations[k]);
        }
        law_serialized_creations(s, front);
        let before = after_creations(s, front);
        assert(creations[n] == c);
        assert(s.has_library(creations[n].library_id));
        assert(before.libraries == s.libraries);
        assert(before.schema == s.schema);
        assert(before.has_library(c.library_id));
        assert(before.create_book_fault(c.library_id) is None);
        law_created_book_is_found(before, c.title, c.author, c.library_id, c.now);
        let end = after_creations(s, creations);
        assert(end == before.with_new_book(c.title, c.author, c.library_id, c.now));
        assert forall|k: int| 0 <= k < creations.len() implies end.books[s.books.len() + k] == (
        BookRow {
            id: s.last_book_id + 1 + k,
            title: (#[trigger] creations[k]).title,
            author: creations[k].author,
            created_at: creations[k].now,
            updated_at: creations[k].now,
        }) by {
            if k < n {
                assert(front[k] == creations[k]);
                assert(end.books[s.books.len() + k] == before.books[s.books.len() + k]);
            }
        }
        assert forall|k: int|
            0 <= k < creations.len() implies end.library_books[s.library_books.len() + k] == (
        HoldingRow {
            library_id: (#[trigger] creations[k]).library_id,
            book_id: s.last_book_id + 1 + k,
            quantity: 1,
        }) by {
            if k < n {
                assert(front[k] == creations[k]);
                assert(end.library_books[s.library_books.len() + k]
                    == before.library_books[s.library_books.len() + k]);
            }
        }
        assert forall|i: int| 0 <= i < s.books.len() implies end.books[i] == s.books[i] by {
            assert(end.books[i] == before.books[i]);
        }
        assert forall|i: int| 0 <= i < s.library_books.len() implies end.library_books[i]
            == s.library_books[i] by {
            assert(end.library_books[i] == before.library_books[i]);
        }
    }
}

/// Creating the schema a second time changes nothing: the store is as the
/// first creation left it, with each of the six relations once and every
/// row where it was.
pub proof fn law_schema_creation_is_idempotent(s: StoreState)
    requires
        s.wf(),
    ensures
        s.with_schema().with_schema() == s.with_schema(),
        s.with_schema().schema.no_duplicates(),
        s.with_schema().ready(),
        s.with_schema() == (StoreState { schema: s.with_schema().schema, ..s }),
        s == StoreState::empty() ==> s.with_schema().schema =~= crate::schema::dependency_order(),
{
    s.lemma_with_schema();
    s.with_schema().lemma_with_schema();
    if s == StoreState::empty() {
        let s1 = s.with_relation(Relation::Members);
        assert(!s.schema.contains(Relation::Members));
        assert(s1.schema =~= seq![Relation::Members]);
        let s2 = s1.with_relation(Relation::Library);
        assert(!s1.schema.contains(Relation::Library));
        assert(s2.schema =~= seq![Relation::Members, Relation::Library]);
        let s3 = s2.with_relation(Relation::Books);
        assert(!s2.schema.contains(Relation::Books));
        assert(s3.schema =~= seq![Relation::Members, Relation::Library, Relation::Books]);
        let s4 = s3.with_relation(Relation::LibraryBooks);
        assert(!s3.schema.contains(Relation::LibraryBooks));
        assert(s4.schema =~= seq![
            Relation::Members,
            Relation::Library,
            Relation::Books,
            Relation::LibraryBooks,
        ]);
        let s5 = s4.with_relation(Relation::LibraryMembers);
        assert(!s4.schema.contains(Relation::LibraryMembers));
        assert(s5.schema =~= seq![
            Relation::Members,
            Relation::Library,
            Relation::Books,
            Relation::LibraryBooks,
            Relation::LibraryMembers,
        ]);
        let s6 = s5.with_relation(Relation::BorrowedBooks);
        assert(!s5.schema.contains(Relation::BorrowedBooks));
        assert(s6.schema =~= crate::schema::dependency_order());
    }
}

} // verus!
