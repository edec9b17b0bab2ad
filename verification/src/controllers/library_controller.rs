use crate::controllers::{
    carries, finish, finishes, json, route_rows, Endpoint, Method, Reply, Route, RouteRow, Status,
};
use crate::error::RepoError;
use crate::models::library::Library;
use crate::traits::LibraryRepositoryTrait;
use vstd::prelude::*;

verus! {

/// The body of a request that opens a library.
pub struct CreateLibraryRequest {
    pub name: String,
    pub address: String,
    pub manager_id: i32,
}

/// The body of a request that changes a library.
pub struct UpdateLibraryRequest {
    pub name: String,
    pub address: String,
    pub manager_id: i32,
}

/// `POST /libraries`: opens the library and answers `Created`.
pub fn create_library<R: LibraryRepositoryTrait + ?Sized>(
    repo: &mut R,
    form: &CreateLibraryRequest,
) -> (reply: Reply<()>)
    requires
        old(repo).valid(),
    ensures
        final(repo).valid(),
        exists|outcome: Result<i32, RepoError>|
            old(repo).creates_library(
                form.name@,
                form.address@,
                form.manager_id as int,
                final(repo).content(),
                outcome,
            ) && #[trigger] finishes(reply, Status::Created, outcome, "Failed to create library"@),
{
    let outcome = repo.create_library(
        form.name.as_str(),
        form.address.as_str(),
        &form.manager_id,
    );
    let ghost seen = outcome;
    let reply = finish(Status::Created, outcome, "Failed to create library");
    assert(finishes(reply, Status::Created, seen, "Failed to create library"@));
    reply
}

/// `PUT /libraries/{id}`: changes the library and answers `Success`, also
/// where no library has the id.
pub fn update_library<R: LibraryRepositoryTrait + ?Sized>(
    repo: &mut R,
    id: i32,
    form: &UpdateLibraryRequest,
) -> (reply: Reply<()>)
    requires
        old(repo).valid(),
    ensures
        final(repo).valid(),
        exists|outcome: Result<usize, RepoError>|
            old(repo).updates_library(
                id as int,
                form.name@,
                form.address@,
                form.manager_id as int,
                final(repo).content(),
                outcome,
            ) && #[trigger] finishes(reply, Status::Success, outcome, "Failed to update library"@),
{
    let outcome = repo.update_library(
        &id,
        form.name.as_str(),
        form.address.as_str(),
        &form.manager_id,
    );
    let ghost seen = outcome;
    let reply = finish(Status::Success, outcome, "Failed to update library");
    assert(finishes(reply, Status::Success, seen, "Failed to update library"@));
    reply
}

/// `DELETE /libraries/{id}`: closes the library and answers `NoContent`,
/// also where no library has the id.
pub fn delete_library<R: LibraryRepositoryTrait + ?Sized>(repo: &mut R, id: i32) -> (reply: Reply<
    (),
>)
    requires
        old(repo).valid(),
    ensures
        final(repo).valid(),
        exists|outcome: Result<usize, RepoError>|
            old(repo).deletes_library(
                id as int,
                final(repo).content(),
                outcome,
            ) && #[trigger] finishes(reply, Status::NoContent, outcome, "Failed to delete library"@),
{
    let outcome = repo.delete_library(&id);
    let ghost seen = outcome;
    let reply = finish(Status::NoContent, outcome, "Failed to delete library");
    assert(finishes(reply, Status::NoContent, seen, "Failed to delete library"@));
    reply
}

/// `GET /libraries/{id}`: answers with the library.
pub fn get_library<R: LibraryRepositoryTrait + ?Sized>(repo: &mut R, id: i32) -> (reply: Reply<
    Library,
>)
    requires
        old(repo).valid(),
    ensures
        final(repo).valid(),
        exists|outcome: Result<Library, RepoError>|
            old(repo).finds_library(
                id as int,
                final(repo).content(),
                outcome,
            ) && #[trigger] carries(reply, outcome, "Failed to get library"@),
{
    let outcome = repo.get_library_by_id(&id);
    let ghost seen = outcome;
    let reply = json(outcome, "Failed to get library");
    assert(carries(reply, seen, "Failed to get library"@));
    reply
}

/// `GET /libraries`: answers with all libraries.
pub fn get_libraries<R: LibraryRepositoryTrait + ?Sized>(repo: &mut R) -> (reply: Reply<
    Vec<Library>,
>)
    requires
        old(repo).valid(),
    ensures
        final(repo).valid(),
        exists|outcome: Result<Vec<Library>, RepoError>|
            old(repo).lists_libraries(
                final(repo).content(),
                outcome,
            ) && #[trigger] carries(reply, outcome, "Failed to get libraries"@),
{
    let outcome = repo.get_libraries();
    let ghost seen = outcome;
    let reply = json(outcome, "Failed to get libraries");
    assert(carries(reply, seen, "Failed to get libraries"@));
    reply
}

/// The routes of the libraries.
pub open spec fn library_route_table() -> Seq<RouteRow> {
    seq![
        RouteRow { method: Method::Post, path: "/libraries"@, endpoint: Endpoint::CreateLibrary },
        RouteRow { method: Method::Get, path: "/libraries"@, endpoint: Endpoint::GetLibraries },
        RouteRow { method: Method::Get, path: "/libraries/{id}"@, endpoint: Endpoint::GetLibrary },
        RouteRow {
            method: Method::Put,
            path: "/libraries/{id}"@,
            endpoint: Endpoint::UpdateLibrary,
        },
        RouteRow {
            method: Method::Delete,
            path: "/libraries/{id}"@,
            endpoint: Endpoint::DeleteLibrary,
        },
    ]
}

/// The routes of the libraries, for the transport to register.
pub fn library_routes() -> (routes: Vec<Route>)
    ensures
        route_rows(routes@) == library_route_table(),
{
    let mut routes: Vec<Route> = Vec::new();
    routes.push(
        Route { method: Method::Post, path: "/libraries", endpoint: Endpoint::CreateLibrary },
    );
    routes.push(Route { method: Method::Get, path: "/libraries", endpoint: Endpoint::GetLibraries });
    routes.push(
        Route { method: Method::Get, path: "/libraries/{id}", endpoint: Endpoint::GetLibrary },
    );
    routes.push(
        Route { method: Method::Put, path: "/libraries/{id}", endpoint: Endpoint::UpdateLibrary },
    );
    routes.push(
        Route {
            method: Method::Delete,
            path: "/libraries/{id}",
            endpoint: Endpoint::DeleteLibrary,
        },
    );
    proof {
        assert(route_rows(routes@) =~= library_route_table());
    }
    routes
}

} // verus!
