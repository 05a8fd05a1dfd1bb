use crate::domain::entities::user::User;
use crate::domain::repositories::user_repository::UserRepository;
use crate::domain::services::user_service::{describe_found, found_as_text};
use vstd::prelude::*;

verus! {

/// Looks users up by email and reports a failure as text.
pub struct GetUserUseCase<T: UserRepository> {
    user_repo: T,
}

impl<T: UserRepository> GetUserUseCase<T> {
    /// The repository this use case works on.
    pub closed spec fn repository(self) -> T {
        self.user_repo
    }

    pub fn new(user_repo: T) -> (use_case: Self)
        ensures
            use_case.repository() == user_repo,
    {
        Self { user_repo }
    }

    /// The user registered under `email`, if there is one.
    pub fn get(&self, email: String) -> (result: Result<Option<User>, String>)
        ensures
            found_as_text(self.repository(), email@, result),
    {
        let found = self.user_repo.find_by_email(email);
        describe_found(found)
    }
}

} // verus!
