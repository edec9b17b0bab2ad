use lending_library::controllers::book_controller::{
    book_routes, create_book, delete_book, get_book, get_books, get_books_by_library_id,
    update_book, CreateBookRequest, UpdateBookRequest,
};
use lending_library::controllers::library_controller::{
    create_library, delete_library, get_libraries, get_library, library_routes, update_library,
    CreateLibraryRequest, UpdateLibraryRequest,
};
use lending_library::controllers::member_controller::{
    borrow_book, create_member, default_library_id, delete_member, get_borrowed_books,
    get_member, get_members, get_members_by_library_id, library_filter, member_routes,
    return_book, update_member, BorrowReturnRequest, CreateMemberRequest,
    GetBorrowedBooksRequest, UpdateMemberRequest,
};
use lending_library::controllers::{
    failure, finish, json, Endpoint, Method, Payload, Reply, Route, Status,
};
use lending_library::error::RepoError;
use lending_library::repositories::create_tables;
use lending_library::store::Store;

fn ready_store() -> Store {
    let mut store = Store::new();
    create_tables(&mut store);
    store
}

fn text<T>(reply: &Reply<T>) -> &str {
    match &reply.body {
        Payload::Text(text) => text.as_str(),
        _ => panic!("the reply carries no text"),
    }
}

/// A store with member 1, library 1 and book 1, made through the handlers.
fn stocked_store() -> Store {
    let mut store = ready_store();
    let member = CreateMemberRequest { name: "Ada".to_string(), email: "ada@example.org".to_string() };
    assert_eq!(create_member(&mut store, &member).status, Status::Created);
    let library = CreateLibraryRequest {
        name: "Central".to_string(),
        address: "1 Main St".to_string(),
        manager_id: 1,
    };
    assert_eq!(create_library(&mut store, &library).status, Status::Created);
    let book = CreateBookRequest {
        title: "Dune".to_string(),
        author: "Frank Herbert".to_string(),
        library_id: 1,
    };
    assert_eq!(create_book(&mut store, &book).status, Status::Created);
    store
}

#[test]
fn status_codes() {
    assert_eq!(Status::Success.code(), 200);
    assert_eq!(Status::Created.code(), 201);
    assert_eq!(Status::NoContent.code(), 204);
    assert_eq!(Status::InternalServerError.code(), 500);
}

#[test]
fn failure_carries_context_and_error() {
    let reply: Reply<()> = failure("Failed to get book", RepoError::NotFound);
    assert_eq!(
        reply,
        Reply {
            status: Status::InternalServerError,
            body: Payload::Text("Failed to get book: Record not found".to_string()),
        }
    );
}

#[test]
fn every_error_is_a_server_side_failure() {
    for error in [
        RepoError::NotFound,
        RepoError::Conflict,
        RepoError::ConstraintViolation,
        RepoError::PoolExhausted,
        RepoError::TransactionFailure,
    ] {
        let reply: Reply<i32> = failure("x", error);
        assert_eq!(reply.status, Status::InternalServerError);
        assert_eq!(text(&reply), format!("x: {}", error.describe()));
    }
}

#[test]
fn error_descriptions() {
    assert_eq!(RepoError::NotFound.describe(), "Record not found");
    assert_eq!(RepoError::Conflict.describe(), "UNIQUE constraint failed");
    assert_eq!(RepoError::ConstraintViolation.describe(), "FOREIGN KEY constraint failed");
    assert_eq!(RepoError::PoolExhausted.describe(), "timed out waiting for connection");
    assert_eq!(
        RepoError::TransactionFailure.describe(),
        "transaction failed and was rolled back"
    );
}

#[test]
fn finish_answers_without_body() {
    let done: Result<usize, RepoError> = Ok(0);
    assert_eq!(
        finish(Status::NoContent, done, "Failed to delete book"),
        Reply { status: Status::NoContent, body: Payload::Empty }
    );
    let failed: Result<usize, RepoError> = Err(RepoError::Conflict);
    assert_eq!(
        finish(Status::Success, failed, "Failed to borrow book"),
        Reply {
            status: Status::InternalServerError,
            body: Payload::Text("Failed to borrow book: UNIQUE constraint failed".to_string()),
        }
    );
}

#[test]
fn json_answers_with_the_value() {
    assert_eq!(
        json(Ok(vec![1, 2]), "Failed to get books"),
        Reply { status: Status::Success, body: Payload::Json(vec![1, 2]) }
    );
    let failed: Result<i32, RepoError> = Err(RepoError::TransactionFailure);
    assert_eq!(
        json(failed, "Failed to get books"),
        Reply {
            status: Status::InternalServerError,
            body: Payload::Text(
                "Failed to get books: transaction failed and was rolled back".to_string()
            ),
        }
    );
}

#[test]
fn sentinel_means_no_library() {
    assert_eq!(default_library_id(), -1);
    assert_eq!(library_filter(-1), None);
    assert_eq!(library_filter(default_library_id()), None);
    assert_eq!(library_filter(0), Some(0));
    assert_eq!(library_filter(7), Some(7));
    assert_eq!(library_filter(-2), Some(-2));
    assert_eq!(library_filter(i32::MIN), Some(i32::MIN));
}

#[test]
fn book_handlers() {
    let mut store = stocked_store();
    let found = get_book(&mut store, 1);
    assert_eq!(found.status, Status::Success);
    match found.body {
        Payload::Json(book) => {
            assert_eq!(book.id, 1);
            assert_eq!(book.title, "Dune");
            assert_eq!(book.author, "Frank Herbert");
        }
        _ => panic!("no book in the reply"),
    }
    let missing = get_book(&mut store, 2);
    assert_eq!(missing.status, Status::InternalServerError);
    assert_eq!(text(&missing), "Failed to get book: Record not found");

    let form = UpdateBookRequest { title: "Emma".to_string(), author: "Jane Austen".to_string() };
    assert_eq!(
        update_book(&mut store, 1, &form),
        Reply { status: Status::Success, body: Payload::Empty }
    );
    assert_eq!(
        update_book(&mut store, 9, &form),
        Reply { status: Status::Success, body: Payload::Empty }
    );
    match get_books(&mut store).body {
        Payload::Json(books) => {
            assert_eq!(books.len(), 1);
            assert_eq!(books[0].title, "Emma");
        }
        _ => panic!("no books in the reply"),
    }
    match get_books_by_library_id(&mut store, 1).body {
        Payload::Json(books) => assert_eq!(books.len(), 1),
        _ => panic!("no books in the reply"),
    }
    assert_eq!(
        delete_book(&mut store, 1),
        Reply { status: Status::NoContent, body: Payload::Empty }
    );
    assert_eq!(
        delete_book(&mut store, 1),
        Reply { status: Status::NoContent, body: Payload::Empty }
    );
}

#[test]
fn create_book_for_missing_library_fails() {
    let mut store = stocked_store();
    let form = CreateBookRequest { title: "T".to_string(), author: "A".to_string(), library_id: 5 };
    let reply = create_book(&mut store, &form);
    assert_eq!(reply.status, Status::InternalServerError);
    assert_eq!(text(&reply), "Failed to create book: FOREIGN KEY constraint failed");
}

#[test]
fn library_handlers() {
    let mut store = stocked_store();
    match get_library(&mut store, 1).body {
        Payload::Json(library) => {
            assert_eq!(library.name, "Central");
            assert_eq!(library.manager_id, 1);
        }
        _ => panic!("no library in the reply"),
    }
    assert_eq!(text(&get_library(&mut store, 3)), "Failed to get library: Record not found");
    let form = UpdateLibraryRequest {
        name: "North".to_string(),
        address: "9 Hill Rd".to_string(),
        manager_id: 1,
    };
    assert_eq!(
        update_library(&mut store, 1, &form),
        Reply { status: Status::Success, body: Payload::Empty }
    );
    let bad = UpdateLibraryRequest {
        name: "North".to_string(),
        address: "9 Hill Rd".to_string(),
        manager_id: 8,
    };
    assert_eq!(
        text(&update_library(&mut store, 1, &bad)),
        "Failed to update library: FOREIGN KEY constraint failed"
    );
    match get_libraries(&mut store).body {
        Payload::Json(libraries) => {
            assert_eq!(libraries.len(), 1);
            assert_eq!(libraries[0].name, "North");
        }
        _ => panic!("no libraries in the reply"),
    }
    assert_eq!(
        delete_library(&mut store, 1),
        Reply { status: Status::NoContent, body: Payload::Empty }
    );
    let orphan = CreateLibraryRequest {
        name: "X".to_string(),
        address: "Y".to_string(),
        manager_id: 4,
    };
    assert_eq!(
        text(&create_library(&mut store, &orphan)),
        "Failed to create library: FOREIGN KEY constraint failed"
    );
}

#[test]
fn member_handlers() {
    let mut store = stocked_store();
    match get_member(&mut store, 1).body {
        Payload::Json(member) => assert_eq!(member.name, "Ada"),
        _ => panic!("no member in the reply"),
    }
    assert_eq!(text(&get_member(&mut store, 2)), "Failed to get member: Record not found");
    let form = UpdateMemberRequest { name: "Ada L.".to_string(), email: "al@example.org".to_string() };
    assert_eq!(
        update_member(&mut store, 1, &form),
        Reply { status: Status::Success, body: Payload::Empty }
    );
    match get_members(&mut store).body {
        Payload::Json(members) => {
            assert_eq!(members.len(), 1);
            assert_eq!(members[0].email, "al@example.org");
        }
        _ => panic!("no members in the reply"),
    }
    assert_eq!(
        get_members_by_library_id(&mut store, 1),
        Reply { status: Status::Success, body: Payload::Json(vec![]) }
    );
    assert_eq!(
        delete_member(&mut store, 1),
        Reply { status: Status::NoContent, body: Payload::Empty }
    );
}

#[test]
fn loan_handlers() {
    let mut store = stocked_store();
    let pair = || BorrowReturnRequest { member_id: 1, book_id: 1 };
    assert_eq!(
        borrow_book(&mut store, pair()),
        Reply { status: Status::Success, body: Payload::Empty }
    );
    let again = borrow_book(&mut store, pair());
    assert_eq!(again.status, Status::InternalServerError);
    assert_eq!(text(&again), "Failed to borrow book: UNIQUE constraint failed");

    let all = GetBorrowedBooksRequest { member_id: 1, library_id: default_library_id() };
    match get_borrowed_books(&mut store, &all).body {
        Payload::Json(books) => assert_eq!(books.len(), 1),
        _ => panic!("no books in the reply"),
    }
    let here = GetBorrowedBooksRequest { member_id: 1, library_id: 1 };
    match get_borrowed_books(&mut store, &here).body {
        Payload::Json(books) => assert_eq!(books.len(), 1),
        _ => panic!("no books in the reply"),
    }
    let elsewhere = GetBorrowedBooksRequest { member_id: 1, library_id: 2 };
    match get_borrowed_books(&mut store, &elsewhere).body {
        Payload::Json(books) => assert!(books.is_empty()),
        _ => panic!("no books in the reply"),
    }
    assert_eq!(
        return_book(&mut store, pair()),
        Reply { status: Status::Success, body: Payload::Empty }
    );
    assert_eq!(
        return_book(&mut store, pair()),
        Reply { status: Status::Success, body: Payload::Empty }
    );
}

#[test]
fn handlers_on_a_store_without_schema_fail() {
    let mut store = Store::new();
    let reply = get_books(&mut store);
    assert_eq!(reply.status, Status::InternalServerError);
    assert_eq!(text(&reply), "Failed to get books: transaction failed and was rolled back");
}

fn route(method: Method, path: &'static str, endpoint: Endpoint) -> Route {
    Route { method, path, endpoint }
}

#[test]
fn routes_of_the_catalog() {
    assert_eq!(
        book_routes(),
        vec![
            route(Method::Post, "/books", Endpoint::CreateBook),
            route(Method::Get, "/books", Endpoint::GetBooks),
            route(Method::Get, "/books/{id}", Endpoint::GetBook),
            route(Method::Put, "/books/{id}", Endpoint::UpdateBook),
            route(Method::Delete, "/books/{id}", Endpoint::DeleteBook),
            route(Method::Get, "/libraries/{library_id}/books", Endpoint::GetBooksByLibraryId),
        ]
    );
}

#[test]
fn routes_of_the_libraries() {
    assert_eq!(
        library_routes(),
        vec![
            route(Method::Post, "/libraries", Endpoint::CreateLibrary),
            route(Method::Get, "/libraries", Endpoint::GetLibraries),
            route(Method::Get, "/libraries/{id}", Endpoint::GetLibrary),
            route(Method::Put, "/libraries/{id}", Endpoint::UpdateLibrary),
            route(Method::Delete, "/libraries/{id}", Endpoint::DeleteLibrary),
        ]
    );
}

#[test]
fn routes_of_the_members() {
    assert_eq!(
        member_routes(),
        vec![
            route(Method::Post, "/members", Endpoint::CreateMember),
            route(Method::Get, "/members", Endpoint::GetMembers),
            route(Method::Get, "/members/{id}", Endpoint::GetMember),
            route(Method::Put, "/members/{id}", Endpoint::UpdateMember),
            route(Method::Delete, "/members/{id}", Endpoint::DeleteMember),
            route(Method::Get, "/members/{member_id}/borrowed_books", Endpoint::GetBorrowedBooks),
            route(
                Method::Get,
                "/members/{member_id}/borrowed_books/{library_id}",
                Endpoint::GetBorrowedBooks
            ),
            route(Method::Post, "/members/{member_id}/books/{book_id}", Endpoint::BorrowBook),
            route(Method::Delete, "/members/{member_id}/books/{book_id}", Endpoint::ReturnBook),
            route(Method::Get, "/libraries/{library_id}/members", Endpoint::GetMembersByLibraryId),
        ]
    );
}
