use crate::application::errors::user_application_error::UserApplicationError;
use crate::domain::entities::user::User;
use crate::domain::errors::user_repository_error::UserRepositoryError;
use crate::domain::repositories::user_repository::UserRepository;
use vstd::prelude::*;

verus! {

/// What is returned once the store has replied to a lookup: the user it
/// found, or that it found none, as the store gave it; or the store's failure
/// reported as unexpected, with its message.
pub fn conclude_lookup(found: Result<Option<User>, UserRepositoryError>) -> (result: Result<
    Option<User>,
    UserApplicationError,
>)
    ensures
        match found {
            Ok(user) => result == Ok::<Option<User>, UserApplicationError>(user),
            Err(UserRepositoryError::DatabaseError(msg)) => result == Err::<
                Option<User>,
                UserApplicationError,
            >(UserApplicationError::Unexpected(msg)),
        },
{
    match found {
        Ok(user) => Ok(user),
        Err(err) => Err(UserApplicationError::from(err)),
    }
}

/// Looks users up by email.
pub struct FindUserByEmailUseCase<T: UserRepository> {
    user_repo: T,
}

impl<T: UserRepository> FindUserByEmailUseCase<T> {
    /// The repository this use case works on.
    pub closed spec fn repository(self) -> T {
        self.user_repo
    }

    /// Whether looking `email` up on the store `repo` may end in `result`:
    /// the store was asked once, and its reply is handed on. A lookup never
    /// ends in a conflict.
    pub open spec fn finds(
        repo: T,
        email: Seq<char>,
        result: Result<Option<User>, UserApplicationError>,
    ) -> bool {
        match result {
            Ok(user) => repo.may_find(email, Ok(user)),
            Err(UserApplicationError::Unexpected(msg)) => repo.may_find(
                email,
                Err(UserRepositoryError::DatabaseError(msg)),
            ),
            Err(UserApplicationError::Conflict(_)) => false,
        }
    }

    pub fn new(user_repo: T) -> (use_case: Self)
        ensures
            use_case.repository() == user_repo,
    {
        Self { user_repo }
    }

    /// Gives the repository back, as it was handed in: a lookup writes
    /// nothing.
    pub fn into_repository(self) -> (user_repo: T)
        ensures
            user_repo == self.repository(),
    {
        self.user_repo
    }

    /// The user registered under `email`, if there is one.
    pub fn execute(&self, email: String) -> (result: Result<Option<User>, UserApplicationError>)
        ensures
            Self::finds(self.repository(), email@, result),
    {
        conclude_lookup(self.user_repo.find_by_email(email))
    }
}


/// Whether the store `repo`, as long as nothing is written to it, answers a
/// lookup of `email` in one way only.
pub open spec fn answers_lookup_in_one_way<T: UserRepository>(repo: T, email: Seq<char>) -> bool {
    forall|first: Result<Option<User>, UserRepositoryError>, second: Result<Option<User>, UserRepositoryError>|
        #![trigger repo.may_find(email, first), repo.may_find(email, second)]
        repo.may_find(email, first) && repo.may_find(email, second) ==> first == second
}

/// Looking the same email up twice, with nothing written in between, ends in
/// the same result both times: the use case keeps no state of its own, so
/// its result is as repeatable as the store's reply.
pub proof fn lemma_lookup_is_repeatable<T: UserRepository>(
    repo: T,
    email: Seq<char>,
    first: Result<Option<User>, UserApplicationError>,
    second: Result<Option<User>, UserApplicationError>,
)
    requires
        answers_lookup_in_one_way(repo, email),
        FindUserByEmailUseCase::<T>::finds(repo, email, first),
        FindUserByEmailUseCase::<T>::finds(repo, email, second),
    ensures
        first == second,
{
    let reply_of = |result: Result<Option<User>, UserApplicationError>|
        match result {
            Ok(user) => Ok::<Option<User>, UserRepositoryError>(user),
            Err(UserApplicationError::Unexpected(msg)) => Err::<Option<User>, UserRepositoryError>(
                UserRepositoryError::DatabaseError(msg),
            ),
            Err(UserApplicationError::Conflict(msg)) => Err::<Option<User>, UserRepositoryError>(
                UserRepositoryError::DatabaseError(msg),
            ),
        };
    assert(repo.may_find(email, reply_of(first)));
    assert(repo.may_find(email, reply_of(second)));
    assert(reply_of(first) == reply_of(second));
}

} // verus!
