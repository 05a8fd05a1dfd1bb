use crate::domain::entities::user::User;
use crate::domain::errors::user_repository_error::UserRepositoryError;
use vstd::prelude::*;

verus! {

/// The store of users, as the application sees it.
///
/// A store may fail at any time, so a request does not determine its reply.
/// Each implementation says, with the three `may_*` predicates, which replies
/// it can give in which state; a store of which nothing is known allows every
/// reply. What the callers prove holds for whatever reply came back.
pub trait UserRepository: Sized {
    /// Whether the store, in this state, may give `reply` when asked to save
    /// `user`, and be in the state `after` once it has replied.
    open spec fn may_save(
        &self,
        user: User,
        reply: Result<i32, UserRepositoryError>,
        after: Self,
    ) -> bool {
        true
    }

    /// Whether the store, in this state, may give `reply` when asked whether a
    /// user is registered under `email`.
    open spec fn may_exist(
        &self,
        email: Seq<char>,
        reply: Result<bool, UserRepositoryError>,
    ) -> bool {
        true
    }

    /// Whether the store, in this state, may give `reply` when asked for the
    /// user registered under `email`.
    open spec fn may_find(
        &self,
        email: Seq<char>,
        reply: Result<Option<User>, UserRepositoryError>,
    ) -> bool {
        true
    }

    /// Stores a user that has no identifier yet and returns the identifier
    /// assigned to it.
    fn save(&mut self, user: &User) -> (reply: Result<i32, UserRepositoryError>)
        requires
            user.id is New,
        ensures
            old(self).may_save(*user, reply, *final(self)),
    ;

    /// Whether a user is registered under `email`.
    fn exists_by_email(&self, email: &str) -> (reply: Result<bool, UserRepositoryError>)
        ensures
            self.may_exist(email@, reply),
    ;

    /// The user registered under `email`, if there is one. That there is none
    /// is no failure.
    fn find_by_email(&self, email: String) -> (reply: Result<Option<User>, UserRepositoryError>)
        ensures
            self.may_find(email@, reply),
    ;
}

} // verus!
