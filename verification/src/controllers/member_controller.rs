use crate::controllers::{
    carries, finish, finishes, json, route_rows, Endpoint, Method, Reply, Route, RouteRow, Status,
};
use crate::error::RepoError;
use crate::models::book::Book;
use crate::models::member::Member;
use crate::traits::MemberRepositoryTrait;
use vstd::prelude::*;

verus! {

/// The body of a request that enrols a member.
pub struct CreateMemberRequest {
    pub name: String,
    pub email: String,
}

/// The body of a request that changes a member.
pub struct UpdateMemberRequest {
    pub name: String,
    pub email: String,
}

/// The path of a request that borrows or returns a book.
pub struct BorrowReturnRequest {
    pub member_id: i32,
    pub book_id: i32,
}

/// The path of a request for a member's loans. Where the path names no
/// library, `library_id` holds `default_library_id()`.
pub struct GetBorrowedBooksRequest {
    pub member_id: i32,
    pub library_id: i32,
}

/// The value that stands on the wire for "no library": -1, which is the id
/// of no library.
pub fn default_library_id() -> (id: i32)
    ensures
        id == -1,
{
    -1
}

/// The library that a wire value names: none for -1, else the library with
/// that id.
pub open spec fn filter_of(library_id: i32) -> Option<i32> {
    if library_id == -1 {
        None
    } else {
        Some(library_id)
    }
}

/// The library that a wire value names: none for `default_library_id()`,
/// else the library with that id.
pub fn library_filter(library_id: i32) -> (library: Option<i32>)
    ensures
        library == filter_of(library_id),
{
    if library_id == default_library_id() {
        None
    } else {
        Some(library_id)
    }
}

/// `POST /members`: enrols the member and answers `Created`.
pub fn create_member<R: MemberRepositoryTrait + ?Sized>(repo: &mut R, form: &CreateMemberRequest) -> (reply:
    Reply<()>)
    requires
        old(repo).valid(),
    ensures
        final(repo).valid(),
        exists|outcome: Result<i32, RepoError>|
            old(repo).creates_member(
                form.name@,
                form.email@,
                final(repo).content(),
                outcome,
            ) && #[trigger] finishes(reply, Status::Created, outcome, "Failed to create member"@),
{
    let outcome = repo.create_member(form.name.as_str(), form.email.as_str());
    let ghost seen = outcome;
    let reply = finish(Status::Created, outcome, "Failed to create member");
    assert(finishes(reply, Status::Created, seen, "Failed to create member"@));
    reply
}

/// `PUT /members/{id}`: changes the member and answers `Success`, also where
/// no member has the id.
pub fn update_member<R: MemberRepositoryTrait + ?Sized>(
    repo: &mut R,
    id: i32,
    form: &UpdateMemberRequest,
) -> (reply: Reply<()>)
    requires
        old(repo).valid(),
    ensures
        final(repo).valid(),
        exists|outcome: Result<usize, RepoError>|
            old(repo).updates_member(
                id as int,
                form.name@,
                form.email@,
                final(repo).content(),
                outcome,
            ) && #[trigger] finishes(reply, Status::Success, outcome, "Failed to update member"@),
{
    let outcome = repo.update_member(&id, form.name.as_str(), form.email.as_str());
    let ghost seen = outcome;
    let reply = finish(Status::Success, outcome, "Failed to update member");
    assert(finishes(reply, Status::Success, seen, "Failed to update member"@));
    reply
}

/// `DELETE /members/{id}`: strikes the member and answers `NoContent`, also
/// where no member has the id.
pub fn delete_member<R: MemberRepositoryTrait + ?Sized>(repo: &mut R, id: i32) -> (reply: Reply<()>)
    requires
        old(repo).valid(),
    ensures
        final(repo).valid(),
        exists|outcome: Result<usize, RepoError>|
            old(repo).deletes_member(
                id as int,
                final(repo).content(),
                outcome,
            ) && #[trigger] finishes(reply, Status::NoContent, outcome, "Failed to delete member"@),
{
    let outcome = repo.delete_member(&id);
    let ghost seen = outcome;
    let reply = finish(Status::NoContent, outcome, "Failed to delete member");
    assert(finishes(reply, Status::NoContent, seen, "Failed to delete member"@));
    reply
}

/// `GET /members/{id}`: answers with the member.
pub fn get_member<R: MemberRepositoryTrait + ?Sized>(repo: &mut R, id: i32) -> (reply: Reply<Member>)
    requires
        old(repo).valid(),
    ensures
        final(repo).valid(),
        exists|outcome: Result<Member, RepoError>|
            old(repo).finds_member(
                id as int,
                final(repo).content(),
                outcome,
            ) && #[trigger] carries(reply, outcome, "Failed to get member"@),
{
    let outcome = repo.get_member_by_id(&id);
    let ghost seen = outcome;
    let reply = json(outcome, "Failed to get member");
    assert(carries(reply, seen, "Failed to get member"@));
    reply
}

/// `GET /members`: answers with all members.
pub fn get_members<R: MemberRepositoryTrait + ?Sized>(repo: &mut R) -> (reply: Reply<Vec<Member>>)
    requires
        old(repo).valid(),
    ensures
        final(repo).valid(),
        exists|outcome: Result<Vec<Member>, RepoError>|
            old(repo).lists_members(
                final(repo).content(),
                outcome,
            ) && #[trigger] carries(reply, outcome, "Failed to get members"@),
{
    let outcome = repo.get_members();
    let ghost seen = outcome;
    let reply = json(outcome, "Failed to get members");
    assert(carries(reply, seen, "Failed to get members"@));
    reply
}

/// `GET /libraries/{library_id}/members`: answers with the members on the
/// library's roster.
pub fn get_members_by_library_id<R: MemberRepositoryTrait + ?Sized>(
    repo: &mut R,
    library_id: i32,
) -> (reply: Reply<Vec<Member>>)
    requires
        old(repo).valid(),
    ensures
        final(repo).valid(),
        exists|outcome: Result<Vec<Member>, RepoError>|
            old(repo).lists_members_of_library(
                library_id as int,
                final(repo).content(),
                outcome,
            ) && #[trigger] carries(reply, outcome, "Failed to get members by library id"@),
{
    let outcome = repo.get_members_by_library_id(&library_id);
    let ghost seen = outcome;
    let reply = json(outcome, "Failed to get members by library id");
    assert(carries(reply, seen, "Failed to get members by library id"@));
    reply
}

/// `POST /members/{member_id}/books/{book_id}`: enters the loan and answers
/// `Success`.
pub fn borrow_book<R: MemberRepositoryTrait + ?Sized>(repo: &mut R, path: BorrowReturnRequest) -> (reply:
    Reply<()>)
    requires
        old(repo).valid(),
    ensures
        final(repo).valid(),
        exists|outcome: Result<usize, RepoError>|
            old(repo).borrows_book(
                path.member_id as int,
                path.book_id as int,
                final(repo).content(),
                outcome,
            ) && #[trigger] finishes(reply, Status::Success, outcome, "Failed to borrow book"@),
{
    let BorrowReturnRequest { member_id, book_id } = path;
    let outcome = repo.borrow_book(&member_id, &book_id);
    let ghost seen = outcome;
    let reply = finish(Status::Success, outcome, "Failed to borrow book");
    assert(finishes(reply, Status::Success, seen, "Failed to borrow book"@));
    reply
}

/// `DELETE /members/{member_id}/books/{book_id}`: strikes the loan and
/// answers `Success`, also where the member did not hold the book.
pub fn return_book<R: MemberRepositoryTrait + ?Sized>(repo: &mut R, path: BorrowReturnRequest) -> (reply:
    Reply<()>)
    requires
        old(repo).valid(),
    ensures
        final(repo).valid(),
        exists|outcome: Result<usize, RepoError>|
            old(repo).returns_book(
                path.member_id as int,
                path.book_id as int,
                final(repo).content(),
                outcome,
            ) && #[trigger] finishes(reply, Status::Success, outcome, "Failed to return book"@),
{
    let BorrowReturnRequest { member_id, book_id } = path;
    let outcome = repo.return_book(&member_id, &book_id);
    let ghost seen = outcome;
    let reply = finish(Status::Success, outcome, "Failed to return book");
    assert(finishes(reply, Status::Success, seen, "Failed to return book"@));
    reply
}

/// `GET /members/{member_id}/borrowed_books` and
/// `GET /members/{member_id}/borrowed_books/{library_id}`: answers with the
/// books that the member holds, of all libraries where the path names none.
pub fn get_borrowed_books<R: MemberRepositoryTrait + ?Sized>(
    repo: &mut R,
    path: &GetBorrowedBooksRequest,
) -> (reply: Reply<Vec<Book>>)
    requires
        old(repo).valid(),
    ensures
        final(repo).valid(),
        exists|outcome: Result<Vec<Book>, RepoError>|
            old(repo).lists_borrowed_books(
                path.member_id as int,
                filter_of(path.library_id),
                final(repo).content(),
                outcome,
            ) && #[trigger] carries(reply, outcome, "Failed to get borrowed books"@),
{
    let outcome = repo.get_borrowed_books(&path.member_id, library_filter(path.library_id));
    let ghost seen = outcome;
    let reply = json(outcome, "Failed to get borrowed books");
    assert(carries(reply, seen, "Failed to get borrowed books"@));
    reply
}

/// The routes of the members and of their loans. A member's loans are asked
/// for with or without a library at the end of the path.
pub open spec fn member_route_table() -> Seq<RouteRow> {
    seq![
        RouteRow { method: Method::Post, path: "/members"@, endpoint: Endpoint::CreateMember },
        RouteRow { method: Method::Get, path: "/members"@, endpoint: Endpoint::GetMembers },
        RouteRow { method: Method::Get, path: "/members/{id}"@, endpoint: Endpoint::GetMember },
        RouteRow { method: Method::Put, path: "/members/{id}"@, endpoint: Endpoint::UpdateMember },
        RouteRow {
            method: Method::Delete,
            path: "/members/{id}"@,
            endpoint: Endpoint::DeleteMember,
        },
        RouteRow {
            method: Method::Get,
            path: "/members/{member_id}/borrowed_books"@,
            endpoint: Endpoint::GetBorrowedBooks,
        },
        RouteRow {
            method: Method::Get,
            path: "/members/{member_id}/borrowed_books/{library_id}"@,
            endpoint: Endpoint::GetBorrowedBooks,
        },
        RouteRow {
            method: Method::Post,
            path: "/members/{member_id}/books/{book_id}"@,
            endpoint: Endpoint::BorrowBook,
        },
        RouteRow {
            method: Method::Delete,
            path: "/members/{member_id}/books/{book_id}"@,
            endpoint: Endpoint::ReturnBook,
        },
        RouteRow {
            method: Method::Get,
            path: "/libraries/{library_id}/members"@,
            endpoint: Endpoint::GetMembersByLibraryId,
        },
    ]
}

/// The routes of the members and of their loans, for the transport to
/// register.
pub fn member_routes() -> (routes: Vec<Route>)
    ensures
        route_rows(routes@) == member_route_table(),
{
    let mut routes: Vec<Route> = Vec::new();
    routes.push(Route { method: Method::Post, path: "/members", endpoint: Endpoint::CreateMember });
    routes.push(Route { method: Method::Get, path: "/members", endpoint: Endpoint::GetMembers });
    routes.push(Route { method: Method::Get, path: "/members/{id}", endpoint: Endpoint::GetMember });
    routes.push(
        Route { method: Method::Put, path: "/members/{id}", endpoint: Endpoint::UpdateMember },
    );
    routes.push(
        Route { method: Method::Delete, path: "/members/{id}", endpoint: Endpoint::DeleteMember },
    );
    routes.push(
        Route {
            method: Method::Get,
            path: "/members/{member_id}/borrowed_books",
            endpoint: Endpoint::GetBorrowedBooks,
        },
    );
    routes.push(
        Route {
            method: Method::Get,
            path: "/members/{member_id}/borrowed_books/{library_id}",
            endpoint: Endpoint::GetBorrowedBooks,
        },
    );
    routes.push(
        Route {
            method: Method::Post,
            path: "/members/{member_id}/books/{book_id}",
            endpoint: Endpoint::BorrowBook,
        },
    );
    routes.push(
        Route {
            method: Method::Delete,
            path: "/members/{member_id}/books/{book_id}",
            endpoint: Endpoint::ReturnBook,
        },
    );
    routes.push(
        Route {
            method: Method::Get,
            path: "/libraries/{library_id}/members",
            endpoint: Endpoint::GetMembersByLibraryId,
        },
    );
    proof {
        assert(route_rows(routes@) =~= member_route_table());
    }
    routes
}

} // verus!
