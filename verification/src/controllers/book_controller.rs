use crate::controllers::{
    carries, finish, finishes, json, route_rows, Endpoint, Method, Reply, Route, RouteRow, Status,
};
use crate::error::RepoError;
use crate::models::book::Book;
use crate::traits::BookRepositoryTrait;
use vstd::prelude::*;

verus! {

/// The body of a request that adds a book to the catalog.
pub struct CreateBookRequest {
    pub title: String,
    pub author: String,
    pub library_id: i32,
}

/// The body of a request that changes a book's title and author.
pub struct UpdateBookRequest {
    pub title: String,
    pub author: String,
}

/// `POST /books`: creates the book and answers `Created`.
pub fn create_book<R: BookRepositoryTrait + ?Sized>(repo: &mut R, form: &CreateBookRequest) -> (reply:
    Reply<()>)
    requires
        old(repo).valid(),
    ensures
        final(repo).valid(),
        exists|outcome: Result<i32, RepoError>|
            old(repo).creates_book(
                form.title@,
                form.author@,
                form.library_id as int,
                final(repo).content(),
                outcome,
            ) && #[trigger] finishes(reply, Status::Created, outcome, "Failed to create book"@),
{
    let outcome = repo.create_book(form.title.as_str(), form.author.as_str(), &form.library_id);
    let ghost seen = outcome;
    let reply = finish(Status::Created, outcome, "Failed to create book");
    assert(finishes(reply, Status::Created, seen, "Failed to create book"@));
    reply
}

/// `PUT /books/{id}`: changes the book and answers `Success`, also where no book
/// has the id.
pub fn update_book<R: BookRepositoryTrait + ?Sized>(repo: &mut R, id: i32, form: &UpdateBookRequest) -> (reply:
    Reply<()>)
    requires
        old(repo).valid(),
    ensures
        final(repo).valid(),
        exists|outcome: Result<usize, RepoError>|
            old(repo).updates_book(
                id as int,
                form.title@,
                form.author@,
                final(repo).content(),
                outcome,
            ) && #[trigger] finishes(reply, Status::Success, outcome, "Failed to update book"@),
{
    let outcome = repo.update_book(&id, form.title.as_str(), form.author.as_str());
    let ghost seen = outcome;
    let reply = finish(Status::Success, outcome, "Failed to update book");
    assert(finishes(reply, Status::Success, seen, "Failed to update book"@));
    reply
}

/// `DELETE /books/{id}`: deletes the book and answers `NoContent`, also
/// where no book has the id.
pub fn delete_book<R: BookRepositoryTrait + ?Sized>(repo: &mut R, id: i32) -> (reply: Reply<()>)
    requires
        old(repo).valid(),
    ensures
        final(repo).valid(),
        exists|outcome: Result<usize, RepoError>|
            old(repo).deletes_book(
                id as int,
                final(repo).content(),
                outcome,
            ) && #[trigger] finishes(reply, Status::NoContent, outcome, "Failed to delete book"@),
{
    let outcome = repo.delete_book(&id);
    let ghost seen = outcome;
    let reply = finish(Status::NoContent, outcome, "Failed to delete book");
    assert(finishes(reply, Status::NoContent, seen, "Failed to delete book"@));
    reply
}

/// `GET /books/{id}`: answers with the book.
pub fn get_book<R: BookRepositoryTrait + ?Sized>(repo: &mut R, id: i32) -> (reply: Reply<Book>)
    requires
        old(repo).valid(),
    ensures
        final(repo).valid(),
        exists|outcome: Result<Book, RepoError>|
            old(repo).finds_book(
                id as int,
                final(repo).content(),
                outcome,
            ) && #[trigger] carries(reply, outcome, "Failed to get book"@),
{
    let outcome = repo.get_book_by_id(&id);
    let ghost seen = outcome;
    let reply = json(outcome, "Failed to get book");
    assert(carries(reply, seen, "Failed to get book"@));
    reply
}

/// `GET /books`: answers with all books.
pub fn get_books<R: BookRepositoryTrait + ?Sized>(repo: &mut R) -> (reply: Reply<Vec<Book>>)
    requires
        old(repo).valid(),
    ensures
        final(repo).valid(),
        exists|outcome: Result<Vec<Book>, RepoError>|
            old(repo).lists_books(
                final(repo).content(),
                outcome,
            ) && #[trigger] carries(reply, outcome, "Failed to get books"@),
{
    let outcome = repo.get_books();
    let ghost seen = outcome;
    let reply = json(outcome, "Failed to get books");
    assert(carries(reply, seen, "Failed to get books"@));
    reply
}

/// `GET /libraries/{library_id}/books`: answers with the books of which the
/// library holds copies.
pub fn get_books_by_library_id<R: BookRepositoryTrait + ?Sized>(repo: &mut R, library_id: i32) -> (reply:
    Reply<Vec<Book>>)
    requires
        old(repo).valid(),
    ensures
        final(repo).valid(),
        exists|outcome: Result<Vec<Book>, RepoError>|
            old(repo).lists_books_of_library(
                library_id as int,
                final(repo).content(),
                outcome,
            ) && #[trigger] carries(reply, outcome, "Failed to get books by library id"@),
{
    let outcome = repo.get_books_by_library_id(&library_id);
    let ghost seen = outcome;
    let reply = json(outcome, "Failed to get books by library id");
    assert(carries(reply, seen, "Failed to get books by library id"@));
    reply
}

/// The routes of the catalog.
pub open spec fn book_route_table() -> Seq<RouteRow> {
    seq![
        RouteRow { method: Method::Post, path: "/books"@, endpoint: Endpoint::CreateBook },
        RouteRow { method: Method::Get, path: "/books"@, endpoint: Endpoint::GetBooks },
        RouteRow { method: Method::Get, path: "/books/{id}"@, endpoint: Endpoint::GetBook },
        RouteRow { method: Method::Put, path: "/books/{id}"@, endpoint: Endpoint::UpdateBook },
        RouteRow { method: Method::Delete, path: "/books/{id}"@, endpoint: Endpoint::DeleteBook },
        RouteRow {
            method: Method::Get,
            path: "/libraries/{library_id}/books"@,
            endpoint: Endpoint::GetBooksByLibraryId,
        },
    ]
}

/// The routes of the catalog, for the transport to register.
pub fn book_routes() -> (routes: Vec<Route>)
    ensures
        route_rows(routes@) == book_route_table(),
{
    let mut routes: Vec<Route> = Vec::new();
    routes.push(Route { method: Method::Post, path: "/books", endpoint: Endpoint::CreateBook });
    routes.push(Route { method: Method::Get, path: "/books", endpoint: Endpoint::GetBooks });
    routes.push(Route { method: Method::Get, path: "/books/{id}", endpoint: Endpoint::GetBook });
    routes.push(Route { method: Method::Put, path: "/books/{id}", endpoint: Endpoint::UpdateBook });
    routes.push(
        Route { method: Method::Delete, path: "/books/{id}", endpoint: Endpoint::DeleteBook },
    );
    routes.push(
        Route {
            method: Method::Get,
            path: "/libraries/{library_id}/books",
            endpoint: Endpoint::GetBooksByLibraryId,
        },
    );
    proof {
        assert(route_rows(routes@) =~= book_route_table());
    }
    routes
}

} // verus!
