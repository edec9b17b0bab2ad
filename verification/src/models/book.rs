use vstd::prelude::*;

verus! {

/// A catalog entry: a title and its author, whichever library holds copies.
#[derive(Debug, PartialEq, Eq)]
pub struct Book {
    pub id: i32,
    pub title: String,
    pub author: String,
    pub created_at: String,
    pub updated_at: String,
}

/// What a `Book` is to a contract: its id and the text of each column.
pub struct BookRow {
    pub id: int,
    pub title: Seq<char>,
    pub author: Seq<char>,
    pub created_at: Seq<char>,
    pub updated_at: Seq<char>,
}

impl View for Book {
    type V = BookRow;

    open spec fn view(&self) -> BookRow {
        BookRow {
            id: self.id as int,
            title: self.title@,
            author: self.author@,
            created_at: self.created_at@,
            updated_at: self.updated_at@,
        }
    }
}

impl Clone for Book {
    fn clone(&self) -> (copy: Book)
        ensures
            copy@ == self@,
    {
        Book {
            id: self.id,
            title: self.title.clone(),
            author: self.author.clone(),
            created_at: self.created_at.clone(),
            updated_at: self.updated_at.clone(),
        }
    }
}

/// The rows of a sequence of books.
pub open spec fn book_rows(books: Seq<Book>) -> Seq<BookRow> {
    books.map_values(|b: Book| b@)
}

/// The columns of a book that is about to be inserted; the store gives the id.
#[derive(Debug)]
pub struct NewBook<'a> {
    pub title: &'a str,
    pub author: &'a str,
    pub created_at: &'a str,
    pub updated_at: &'a str,
}

/// A loan that is about to be entered in the ledger.
pub struct NewBorrowedBook<'a> {
    pub member_id: &'a i32,
    pub book_id: &'a i32,
    pub borrowed_at: &'a str,
}

/// A holding that is about to be entered: how many copies of a title a
/// library has.
pub struct NewLibraryBook<'a> {
    pub library_id: &'a i32,
    pub book_id: &'a i32,
    pub quantity: &'a i32,
}

/// One row of the holdings relation, keyed by `(library_id, book_id)`.
#[derive(Debug, Clone, Copy, PartialEq, Eq, Structural)]
pub struct LibraryBook {
    pub library_id: i32,
    pub book_id: i32,
    pub quantity: i32,
}

/// What a `LibraryBook` is to a contract.
pub struct HoldingRow {
    pub library_id: int,
    pub book_id: int,
    pub quantity: int,
}

impl View for LibraryBook {
    type V = HoldingRow;

    open spec fn view(&self) -> HoldingRow {
        HoldingRow {
            library_id: self.library_id as int,
            book_id: self.book_id as int,
            quantity: self.quantity as int,
        }
    }
}

/// The rows of a sequence of holdings.
pub open spec fn holding_rows(holdings: Seq<LibraryBook>) -> Seq<HoldingRow> {
    holdings.map_values(|h: LibraryBook| h@)
}

/// One row of the loan ledger, keyed by `(member_id, book_id)`. The row is
/// there while the member holds the book.
#[derive(Debug, PartialEq, Eq)]
pub struct BorrowedBook {
    pub member_id: i32,
    pub book_id: i32,
    pub borrowed_at: String,
}

/// What a `BorrowedBook` is to a contract.
pub struct LoanRow {
    pub member_id: int,
    pub book_id: int,
    pub borrowed_at: Seq<char>,
}

impl View for BorrowedBook {
    type V = LoanRow;

    open spec fn view(&self) -> LoanRow {
        LoanRow {
            member_id: self.member_id as int,
            book_id: self.book_id as int,
            borrowed_at: self.borrowed_at@,
        }
    }
}

/// The rows of a sequence of loans.
pub open spec fn loan_rows(loans: Seq<BorrowedBook>) -> Seq<LoanRow> {
    loans.map_values(|l: BorrowedBook| l@)
}

} // verus!
