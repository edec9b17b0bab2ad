use lending_library::controllers::book_controller::{create_book, get_books, CreateBookRequest};
use lending_library::controllers::member_controller::{
    get_borrowed_books, GetBorrowedBooksRequest,
};
use lending_library::controllers::{Payload, Reply, Status};
use lending_library::error::RepoError;
use lending_library::models::book::Book;
use lending_library::models::member::Member;
use lending_library::traits::{BookRepositoryTrait, MemberRepositoryTrait};

/// A repository whose pool never has a connection.
struct Exhausted;

impl BookRepositoryTrait for Exhausted {
    fn create_book(&mut self, _: &str, _: &str, _: &i32) -> Result<i32, RepoError> {
        Err(RepoError::PoolExhausted)
    }

    fn update_book(&mut self, _: &i32, _: &str, _: &str) -> Result<usize, RepoError> {
        Err(RepoError::PoolExhausted)
    }

    fn delete_book(&mut self, _: &i32) -> Result<usize, RepoError> {
        Err(RepoError::PoolExhausted)
    }

    fn get_book_by_id(&mut self, _: &i32) -> Result<Book, RepoError> {
        Err(RepoError::PoolExhausted)
    }

    fn get_books(&mut self) -> Result<Vec<Book>, RepoError> {
        Err(RepoError::PoolExhausted)
    }

    fn get_books_by_library_id(&mut self, _: &i32) -> Result<Vec<Book>, RepoError> {
        Err(RepoError::PoolExhausted)
    }
}

/// A repository that records the library it was asked for.
struct Recorder {
    asked: Vec<(i32, Option<i32>)>,
}

impl MemberRepositoryTrait for Recorder {
    fn create_member(&mut self, _: &str, _: &str) -> Result<i32, RepoError> {
        Ok(1)
    }

    fn get_members(&mut self) -> Result<Vec<Member>, RepoError> {
        Ok(Vec::new())
    }

    fn get_member_by_id(&mut self, _: &i32) -> Result<Member, RepoError> {
        Err(RepoError::NotFound)
    }

    fn update_member(&mut self, _: &i32, _: &str, _: &str) -> Result<usize, RepoError> {
        Ok(0)
    }

    fn delete_member(&mut self, _: &i32) -> Result<usize, RepoError> {
        Ok(0)
    }

    fn get_members_by_library_id(&mut self, _: &i32) -> Result<Vec<Member>, RepoError> {
        Ok(Vec::new())
    }

    fn borrow_book(&mut self, _: &i32, _: &i32) -> Result<usize, RepoError> {
        Ok(1)
    }

    fn return_book(&mut self, _: &i32, _: &i32) -> Result<usize, RepoError> {
        Ok(0)
    }

    fn get_borrowed_books(
        &mut self,
        member_id: &i32,
        library_id: Option<i32>,
    ) -> Result<Vec<Book>, RepoError> {
        self.asked.push((*member_id, library_id));
        Ok(Vec::new())
    }
}

#[test]
fn exhausted_pool_is_answered_as_a_failure() {
    let mut repo = Exhausted;
    let form = CreateBookRequest { title: "T".to_string(), author: "A".to_string(), library_id: 1 };
    assert_eq!(
        create_book(&mut repo, &form),
        Reply {
            status: Status::InternalServerError,
            body: Payload::Text(
                "Failed to create book: timed out waiting for connection".to_string()
            ),
        }
    );
    assert_eq!(get_books(&mut repo).status, Status::InternalServerError);
}

#[test]
fn handlers_work_through_a_trait_object() {
    let mut repo: Box<dyn BookRepositoryTrait> = Box::new(Exhausted);
    assert_eq!(get_books(repo.as_mut()).status, Status::InternalServerError);
}

#[test]
fn the_sentinel_reaches_the_repository_as_no_library() {
    let mut repo = Recorder { asked: Vec::new() };
    let all = GetBorrowedBooksRequest { member_id: 4, library_id: -1 };
    let one = GetBorrowedBooksRequest { member_id: 4, library_id: 9 };
    assert_eq!(get_borrowed_books(&mut repo, &all).status, Status::Success);
    assert_eq!(get_borrowed_books(&mut repo, &one).status, Status::Success);
    assert_eq!(repo.asked, vec![(4, None), (4, Some(9))]);
}
