use crate::domain::entities::user::User;
use crate::domain::errors::user_repository_error::UserRepositoryError;
use crate::domain::repositories::user_repository::UserRepository;
use vstd::prelude::*;

verus! {

/// What is returned once the store has replied to a save, for a caller that
/// takes a failure as text: the assigned identifier, or the failure written
/// out as it is displayed.
pub fn describe_save(saved: Result<i32, UserRepositoryError>) -> (result: Result<i32, String>)
    ensures
        match saved {
            Ok(id) => result == Ok::<i32, String>(id),
            Err(err) => result matches Err(text) && text@ == err.display(),
        },
{
    match saved {
        Ok(id) => Ok(id),
        Err(err) => Err(String::from(err)),
    }
}

/// What is returned once the store has replied to a lookup, for a caller that
/// takes a failure as text: the store's reply, a failure written out as it is
/// displayed.
pub fn describe_found(found: Result<Option<User>, UserRepositoryError>) -> (result: Result<
    Option<User>,
    String,
>)
    ensures
        match found {
            Ok(user) => result == Ok::<Option<User>, String>(user),
            Err(err) => result matches Err(text) && text@ == err.display(),
        },
{
    match found {
        Ok(user) => Ok(user),
        Err(err) => Err(String::from(err)),
    }
}

/// Whether looking `email` up on the store `repo`, for a caller that takes a
/// failure as text, may end in `result`: the store was asked once; what it
/// found is handed on, and a failure is written out as it is displayed.
pub open spec fn found_as_text<T: UserRepository>(
    repo: T,
    email: Seq<char>,
    result: Result<Option<User>, String>,
) -> bool {
    match result {
        Ok(user) => repo.may_find(email, Ok(user)),
        Err(text) => exists|err: UserRepositoryError| #[trigger]
            repo.may_find(email, Err(err)) && text@ == err.display(),
    }
}

/// Whether saving `user` on the store `before`, for a caller that takes a
/// failure as text, may end in `result` and leave the store as `after`: the
/// store was asked once to save `user`.
pub open spec fn saved_as_text<T: UserRepository>(
    before: T,
    user: User,
    result: Result<i32, String>,
    after: T,
) -> bool {
    match result {
        Ok(id) => before.may_save(user, Ok(id), after),
        Err(text) => exists|err: UserRepositoryError| #[trigger]
            before.may_save(user, Err(err), after) && text@ == err.display(),
    }
}

/// The store of users, with every failure reported as text. It checks
/// nothing itself: whether an email is registered already is for the caller
/// to ask.
#[derive(Clone)]
pub struct UserService<T: UserRepository> {
    user_repo: T,
}

impl<T: UserRepository> UserService<T> {
    /// The repository this service works on.
    pub closed spec fn repository(self) -> T {
        self.user_repo
    }

    pub fn new(user_repo: T) -> (service: Self)
        ensures
            service.repository() == user_repo,
    {
        UserService { user_repo }
    }

    /// Saves a user that has no identifier yet and returns the identifier
    /// assigned to it.
    pub fn register_user(&mut self, user: User) -> (result: Result<i32, String>)
        requires
            user.id is New,
        ensures
            saved_as_text(old(self).repository(), user, result, final(self).repository()),
    {
        let saved = self.user_repo.save(&user);
        describe_save(saved)
    }

    /// The user registered under `email`, if there is one.
    pub fn get_by_email(&self, email: String) -> (result: Result<Option<User>, String>)
        ensures
            found_as_text(self.repository(), email@, result),
    {
        let found = self.user_repo.find_by_email(email);
        describe_found(found)
    }
}

} // verus!
