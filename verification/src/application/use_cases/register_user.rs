use crate::application::errors::user_application_error::UserApplicationError;
use crate::domain::entities::user::User;
use crate::domain::errors::user_repository_error::UserRepositoryError;
use crate::domain::repositories::user_repository::UserRepository;
use crate::domain::value_objects::id::ID;
use crate::presentation::dtos::user_dto::CreateUserDTO;
use vstd::prelude::*;
use vstd::string::StringExecFns;

verus! {

/// The message of the conflict reported when `email` is already registered.
pub open spec fn email_taken_message(email: Seq<char>) -> Seq<char> {
    "The email "@ + email + " is already taken"@
}

/// The user that is saved for a payload: not stored yet, with every field kept.
pub open spec fn new_user(payload: CreateUserDTO) -> User {
    User {
        id: ID::New,
        name: payload.name,
        email: payload.email,
        phone: payload.phone,
        address: payload.address,
    }
}

/// What follows the check whether the payload's email is registered: the user
/// to save, or the failure to report without saving anything.
///
/// A failed check is reported as unexpected, with the store's message. An
/// email that is registered is a conflict. Only an email that is not
/// registered leads to a save.
pub fn decide_registration(
    payload: CreateUserDTO,
    checked: Result<bool, UserRepositoryError>,
) -> (step: Result<User, UserApplicationError>)
    ensures
        match checked {
            Err(UserRepositoryError::DatabaseError(msg)) => step == Err::<
                User,
                UserApplicationError,
            >(UserApplicationError::Unexpected(msg)),
            Ok(true) => step matches Err(UserApplicationError::Conflict(msg)) && msg@
                == email_taken_message(payload.email@),
            Ok(false) => step == Ok::<User, UserApplicationError>(new_user(payload)),
        },
{
    match checked {
        Err(err) => Err(UserApplicationError::from(err)),
        Ok(true) => {
            let msg = String::from_str("The email ").concat(payload.email.as_str()).concat(
                " is already taken",
            );
            Err(UserApplicationError::Conflict(msg))
        },
        Ok(false) => Ok(User::from(payload)),
    }
}

/// What is returned once the store has replied to the save: the assigned
/// identifier, or the store's failure reported as unexpected, with its message.
pub fn conclude_registration(saved: Result<i32, UserRepositoryError>) -> (result: Result<
    i32,
    UserApplicationError,
>)
    ensures
        match saved {
            Ok(id) => result == Ok::<i32, UserApplicationError>(id),
            Err(UserRepositoryError::DatabaseError(msg)) => result == Err::<
                i32,
                UserApplicationError,
            >(UserApplicationError::Unexpected(msg)),
        },
{
    match saved {
        Ok(id) => Ok(id),
        Err(err) => Err(UserApplicationError::from(err)),
    }
}

/// Registers users, at most one under each email.
pub struct RegisterUserUseCase<T: UserRepository> {
    user_repo: T,
}

impl<T: UserRepository> RegisterUserUseCase<T> {
    /// The repository this use case works on.
    pub closed spec fn repository(self) -> T {
        self.user_repo
    }

    /// Whether registering `payload` on the store `before` may end in `result`
    /// and leave the store as `after`.
    ///
    /// The check comes first. If it fails or finds the email registered, the
    /// store is left as it was: nothing is saved. Otherwise the new user is
    /// handed to the store once, and the store's reply decides.
    pub open spec fn registers(
        before: T,
        payload: CreateUserDTO,
        result: Result<i32, UserApplicationError>,
        after: T,
    ) -> bool {
        match result {
            Ok(id) => {
                &&& before.may_exist(payload.email@, Ok(false))
                &&& before.may_save(new_user(payload), Ok(id), after)
            },
            Err(UserApplicationError::Conflict(msg)) => {
                &&& before.may_exist(payload.email@, Ok(true))
                &&& msg@ == email_taken_message(payload.email@)
                &&& after == before
            },
            Err(UserApplicationError::Unexpected(msg)) => {
                ||| {
                    &&& before.may_exist(
                        payload.email@,
                        Err(UserRepositoryError::DatabaseError(msg)),
                    )
                    &&& after == before
                }
                ||| {
                    &&& before.may_exist(payload.email@, Ok(false))
                    &&& before.may_save(
                        new_user(payload),
                        Err(UserRepositoryError::DatabaseError(msg)),
                        after,
                    )
                }
            },
        }
    }

    pub fn new(user_repo: T) -> (use_case: Self)
        ensures
            use_case.repository() == user_repo,
    {
        Self { user_repo }
    }

    /// Gives the repository back, as the registrations have left it.
    pub fn into_repository(self) -> (user_repo: T)
        ensures
            user_repo == self.repository(),
    {
        self.user_repo
    }

    /// Registers the user described by `user`, unless its email is registered
    /// already, and returns the identifier the store assigned.
    pub fn execute(&mut self, user: CreateUserDTO) -> (result: Result<i32, UserApplicationError>)
        ensures
            Self::registers(old(self).repository(), user, result, final(self).repository()),
    {
        let checked = self.user_repo.exists_by_email(user.email.as_str());
        match decide_registration(user, checked) {
            Err(err) => Err(err),
            Ok(entity) => {
                let saved = self.user_repo.save(&entity);
                conclude_registration(saved)
            },
        }
    }
}

} // verus!
