use std::cell::RefCell;
use std::rc::Rc;

use user_registry::application::errors::user_application_error::UserApplicationError;
use user_registry::application::use_cases::find_user_by_email::{
    conclude_lookup, FindUserByEmailUseCase,
};
use user_registry::domain::entities::user::User;
use user_registry::domain::errors::user_repository_error::UserRepositoryError;
use user_registry::domain::repositories::user_repository::UserRepository;

/// A repository that answers every lookup with the reply it was made with.
struct ScriptedRepository {
    find_reply: Result<Option<User>, UserRepositoryError>,
    asked: Rc<RefCell<Vec<String>>>,
}

impl ScriptedRepository {
    fn new(
        find_reply: Result<Option<User>, UserRepositoryError>,
    ) -> (Self, Rc<RefCell<Vec<String>>>) {
        let asked = Rc::new(RefCell::new(Vec::new()));
        let repo = ScriptedRepository {
            find_reply,
            asked: asked.clone(),
        };
        (repo, asked)
    }
}

impl UserRepository for ScriptedRepository {
    fn save(&mut self, _user: &User) -> Result<i32, UserRepositoryError> {
        panic!("a lookup saves nothing")
    }

    fn exists_by_email(&self, _email: &str) -> Result<bool, UserRepositoryError> {
        panic!("a lookup does not ask whether the email is registered")
    }

    fn find_by_email(&self, email: String) -> Result<Option<User>, UserRepositoryError> {
        self.asked.borrow_mut().push(email);
        self.find_reply.clone()
    }
}

fn andrew() -> User {
    User::restore(
        42,
        "Andrew".to_string(),
        "andrew@email.com".to_string(),
        "+001133334444".to_string(),
        "Dawn St.".to_string(),
    )
    .unwrap()
}

#[test]
fn execute_user_repository_error() {
    let (mock_user_repository, asked) = ScriptedRepository::new(Err(
        UserRepositoryError::DatabaseError("Fake Error".to_string()),
    ));

    let sut = FindUserByEmailUseCase::new(mock_user_repository);

    let result = sut.execute("any@email.com".to_string());

    assert!(result.is_err());
    assert_eq!(asked.borrow().len(), 1);
}

#[test]
fn find_user_by_email_execute_ok() {
    let fake_user = User::restore(
        42,
        "Andrew".to_string(),
        "andrew@email.com".to_string(),
        "+001133334444".to_string(),
        "Dawn St.".to_string(),
    )
    .unwrap();

    let (mock_user_repository, asked) = ScriptedRepository::new(Ok(Some(fake_user.clone())));

    let sut = FindUserByEmailUseCase::new(mock_user_repository);

    let result = sut.execute(fake_user.email.clone()).unwrap();

    assert_eq!(result, Some(fake_user.clone()));
    assert_eq!(*asked.borrow(), vec![fake_user.email]);
}

#[test]
fn a_failed_lookup_is_unexpected_with_the_store_message() {
    let (repo, _asked) =
        ScriptedRepository::new(Err(UserRepositoryError::DatabaseError("y".to_string())));
    let sut = FindUserByEmailUseCase::new(repo);

    let result = sut.execute("andrew@email.com".to_string());

    assert_eq!(result, Err(UserApplicationError::Unexpected("y".to_string())));
}

#[test]
fn absence_is_no_error() {
    let (repo, _asked) = ScriptedRepository::new(Ok(None));
    let sut = FindUserByEmailUseCase::new(repo);

    assert_eq!(sut.execute("nobody@email.com".to_string()), Ok(None));
}

#[test]
fn looking_up_twice_gives_the_same_result() {
    let (repo, asked) = ScriptedRepository::new(Ok(Some(andrew())));
    let sut = FindUserByEmailUseCase::new(repo);

    let first = sut.execute("andrew@email.com".to_string());
    let second = sut.execute("andrew@email.com".to_string());

    assert_eq!(first, second);
    assert_eq!(first, Ok(Some(andrew())));
    assert_eq!(asked.borrow().len(), 2);
}

#[test]
fn conclude_lookup_hands_on_what_was_found() {
    assert_eq!(conclude_lookup(Ok(Some(andrew()))), Ok(Some(andrew())));
    assert_eq!(conclude_lookup(Ok(None)), Ok(None));
}

#[test]
fn conclude_lookup_reports_a_failed_lookup() {
    assert_eq!(
        conclude_lookup(Err(UserRepositoryError::DatabaseError("y".to_string()))),
        Err(UserApplicationError::Unexpected("y".to_string()))
    );
}
