use crate::application::errors::user_application_error::UserApplicationError;
use crate::application::use_cases::find_user_by_email::{
    answers_lookup_in_one_way,
    FindUserByEmailUseCase,
};
use crate::application::use_cases::register_user::{
    email_taken_message,
    new_user,
    RegisterUserUseCase,
};
use crate::domain::entities::user::User;
use crate::domain::errors::user_repository_error::UserRepositoryError;
use crate::domain::repositories::user_repository::UserRepository;
use crate::domain::value_objects::id::ID;
use crate::presentation::dtos::user_dto::CreateUserDTO;
use vstd::prelude::*;
use vstd::string::StringExecFns;

verus! {

/// A store that keeps its users in memory, in the order in which they were
/// saved. Identifiers are assigned from one upwards, and no two users share
/// an email.
pub struct InMemoryUserRepository {
    users: Vec<User>,
}

/// Whether one of `users` is registered under `email`. Emails are compared
/// character by character.
pub open spec fn registered_in(users: Seq<User>, email: Seq<char>) -> bool {
    exists|i: int| 0 <= i < users.len() && #[trigger] users[i].email@ == email
}

/// The user among `users` that is registered under `email`, if there is one.
pub open spec fn lookup_in(users: Seq<User>, email: Seq<char>) -> Option<User> {
    if registered_in(users, email) {
        Some(users[choose|i: int| 0 <= i < users.len() && #[trigger] users[i].email@ == email])
    } else {
        None
    }
}

/// `user` as it is kept once the store has assigned it `id`.
pub open spec fn stored_as(user: User, id: i32) -> User {
    User {
        id: ID::Existing(id),
        name: user.name,
        email: user.email,
        phone: user.phone,
        address: user.address,
    }
}

/// The message of the failure reported when a user is saved under an email
/// that is registered already.
pub open spec fn duplicate_email_message() -> Seq<char> {
    "duplicate key value violates unique constraint on email"@
}

/// The message of the failure reported when no identifier is left to assign.
pub open spec fn identifiers_exhausted_message() -> Seq<char> {
    "no identifier is left to assign"@
}

fn copy_user(user: &User) -> (copy: User)
    ensures
        copy == *user,
{
    let id = match user.id {
        ID::New => ID::New,
        ID::Existing(id) => ID::Existing(id),
    };
    User {
        id,
        name: user.name.clone(),
        email: user.email.clone(),
        phone: user.phone.clone(),
        address: user.address.clone(),
    }
}

impl InMemoryUserRepository {
    /// The users kept, in the order in which they were saved.
    pub closed spec fn users(self) -> Seq<User> {
        self.users@
    }

    /// The user saved as the `i`-th has the identifier `i + 1`, so every
    /// identifier is positive and none is used twice; no two users share an
    /// email; and the identifiers fit the type they are returned in.
    pub open spec fn wf(self) -> bool {
        &&& self.users().len() <= i32::MAX
        &&& forall|i: int|
            0 <= i < self.users().len() ==> (#[trigger] self.users()[i]).id == ID::Existing(
                (i + 1) as i32,
            )
        &&& forall|i: int, j: int|
            0 <= i < j < self.users().len() ==> (#[trigger] self.users()[i]).email@ != (
            #[trigger] self.users()[j]).email@
    }

    #[verifier::type_invariant]
    spec fn inv(self) -> bool {
        self.wf()
    }

    /// Whether a user is registered under `email`.
    pub open spec fn registered(self, email: Seq<char>) -> bool {
        registered_in(self.users(), email)
    }

    /// The user registered under `email`, if there is one.
    pub open spec fn lookup(self, email: Seq<char>) -> Option<User> {
        lookup_in(self.users(), email)
    }

    /// A store that holds no user.
    pub fn new() -> (repo: Self)
        ensures
            repo.users() == Seq::<User>::empty(),
            repo.wf(),
    {
        InMemoryUserRepository { users: Vec::new() }
    }

    /// How many users are kept.
    pub fn len(&self) -> (n: usize)
        ensures
            n == self.users().len(),
            self.wf(),
    {
        proof {
            use_type_invariant(self);
        }
        self.users.len()
    }

    fn position(&self, email: &String) -> (at: Option<usize>)
        ensures
            self.wf(),
            match at {
                Some(i) => i < self.users().len() && self.users()[i as int].email@ == email@,
                None => !self.registered(email@),
            },
    {
        proof {
            use_type_invariant(self);
        }
        let mut i: usize = 0;
        while i < self.users.len()
            invariant
                self.wf(),
                i <= self.users@.len(),
                forall|j: int| 0 <= j < i ==> (#[trigger] self.users@[j]).email@ != email@,
            decreases self.users@.len() - i,
        {
            if self.users[i].email == *email {
                return Some(i);
            }
            i += 1;
        }
        None
    }
}

impl UserRepository for InMemoryUserRepository {
    /// A user whose email is registered is refused, as is any user once the
    /// identifiers are used up; the store is then left as it was. Any other
    /// user is kept, under the identifier that follows the last one assigned.
    open spec fn may_save(
        &self,
        user: User,
        reply: Result<i32, UserRepositoryError>,
        after: Self,
    ) -> bool {
        if self.registered(user.email@) {
            &&& reply matches Err(err)
            &&& err.message() == duplicate_email_message()
            &&& after == *self
        } else if self.users().len() >= i32::MAX {
            &&& reply matches Err(err)
            &&& err.message() == identifiers_exhausted_message()
            &&& after == *self
        } else {
            &&& reply == Ok::<i32, UserRepositoryError>((self.users().len() + 1) as i32)
            &&& after.users() == self.users().push(
                stored_as(user, (self.users().len() + 1) as i32),
            )
        }
    }

    /// The store never fails to say whether an email is registered.
    open spec fn may_exist(
        &self,
        email: Seq<char>,
        reply: Result<bool, UserRepositoryError>,
    ) -> bool {
        reply == Ok::<bool, UserRepositoryError>(self.registered(email))
    }

    /// The store never fails to look a user up.
    open spec fn may_find(
        &self,
        email: Seq<char>,
        reply: Result<Option<User>, UserRepositoryError>,
    ) -> bool {
        reply == Ok::<Option<User>, UserRepositoryError>(self.lookup(email))
    }

    fn save(&mut self, user: &User) -> (reply: Result<i32, UserRepositoryError>)
        ensures
            final(self).wf(),
    {
        proof {
            use_type_invariant(&*self);
        }
        if self.position(&user.email).is_some() {
            return Err(
                UserRepositoryError::DatabaseError(
                    String::from_str("duplicate key value violates unique constraint on email"),
                ),
            );
        }
        if self.users.len() >= 2147483647 {
            return Err(
                UserRepositoryError::DatabaseError(
                    String::from_str("no identifier is left to assign"),
                ),
            );
        }
        let id: i32 = (self.users.len() + 1) as i32;
        let stored = User {
            id: ID::Existing(id),
            name: user.name.clone(),
            email: user.email.clone(),
            phone: user.phone.clone(),
            address: user.address.clone(),
        };
        assert(stored == stored_as(*user, id));
        let mut users: Vec<User> = Vec::new();
        core::mem::swap(&mut self.users, &mut users);
        users.push(stored);
        core::mem::swap(&mut self.users, &mut users);
        Ok(id)
    }

    fn exists_by_email(&self, email: &str) -> (reply: Result<bool, UserRepositoryError>) {
        let wanted = String::from_str(email);
        Ok(self.position(&wanted).is_some())
    }

    fn find_by_email(&self, email: String) -> (reply: Result<Option<User>, UserRepositoryError>) {
        match self.position(&email) {
            Some(i) => Ok(Some(copy_user(&self.users[i]))),
            None => Ok(None),
        }
    }
}


/// The in-memory store answers a lookup in one way only: by what it holds.
pub proof fn lemma_memory_answers_lookup_in_one_way(repo: InMemoryUserRepository, email: Seq<char>)
    ensures
        answers_lookup_in_one_way(repo, email),
{
}

/// How a lookup ends on the in-memory store: in what the store holds under the
/// email, and never in a failure.
pub proof fn lemma_lookup_on_memory(
    repo: InMemoryUserRepository,
    email: Seq<char>,
    result: Result<Option<User>, UserApplicationError>,
)
    requires
        FindUserByEmailUseCase::<InMemoryUserRepository>::finds(repo, email, result),
    ensures
        result == Ok::<Option<User>, UserApplicationError>(repo.lookup(email)),
{
}

/// A user that is found was stored: it is registered under the email that
/// was asked for, and its identifier is assigned and positive.
pub proof fn lemma_found_user_is_assigned(repo: InMemoryUserRepository, email: Seq<char>)
    requires
        repo.wf(),
    ensures
        repo.lookup(email) matches Some(user) ==> {
            &&& user@.email == email
            &&& user@.id matches Some(id)
            &&& id > 0
            &&& user.wf()
        },
        repo.lookup(email) is Some <==> repo.registered(email),
{
}

/// Once a user has been kept under an email that was free, it is found
/// under that email, and every other email leads to whom it led before.
pub proof fn lemma_kept_user_is_found(
    before: InMemoryUserRepository,
    kept: User,
    after: InMemoryUserRepository,
)
    requires
        before.wf(),
        !before.registered(kept.email@),
        before.users().len() < i32::MAX,
        kept.id == ID::Existing((before.users().len() + 1) as i32),
        after.users() == before.users().push(kept),
    ensures
        after.wf(),
        after.registered(kept.email@),
        after.lookup(kept.email@) == Some(kept),
        forall|email: Seq<char>|
            email != kept.email@ ==> #[trigger] after.lookup(email) == before.lookup(email),
{
    let n = before.users().len() as int;
    assert(after.users()[n] == kept);
    assert forall|i: int| 0 <= i < n implies #[trigger] after.users()[i] == before.users()[i] by {}
    assert(after.wf());
    assert(after.registered(kept.email@));
    assert forall|email: Seq<char>| email != kept.email@ implies #[trigger] after.lookup(email)
        == before.lookup(email) by {
        if before.registered(email) {
            let i = choose|i: int|
                0 <= i < before.users().len() && #[trigger] before.users()[i].email@ == email;
            assert(after.users()[i].email@ == email);
            assert(after.registered(email));
            let j = choose|j: int|
                0 <= j < after.users().len() && #[trigger] after.users()[j].email@ == email;
            assert(j != n);
            assert(i == j);
        } else {
            if after.registered(email) {
                let j = choose|j: int|
                    0 <= j < after.users().len() && #[trigger] after.users()[j].email@ == email;
                assert(j != n);
                assert(before.users()[j].email@ == email);
            }
        }
    }
}

/// How a registration ends on the in-memory store.
///
/// Under an email that is registered it ends in a conflict and leaves the
/// store as it was. Under a free email it ends in the identifier that follows
/// the last one assigned, and the store then holds the new user under that
/// identifier and that email, beside the users it held before; so no email is
/// ever registered twice. Only when the identifiers are used up does it end in
/// an unexpected failure, and the store is left as it was.
pub proof fn lemma_registration_on_memory(
    before: InMemoryUserRepository,
    payload: CreateUserDTO,
    result: Result<i32, UserApplicationError>,
    after: InMemoryUserRepository,
)
    requires
        before.wf(),
        RegisterUserUseCase::<InMemoryUserRepository>::registers(before, payload, result, after),
    ensures
        after.wf(),
        before.registered(payload.email@) ==> {
            &&& result matches Err(UserApplicationError::Conflict(msg))
            &&& msg@ == email_taken_message(payload.email@)
            &&& after == before
        },
        !before.registered(payload.email@) && before.users().len() < i32::MAX ==> {
            &&& result == Ok::<i32, UserApplicationError>((before.users().len() + 1) as i32)
            &&& after.users() == before.users().push(
                stored_as(new_user(payload), (before.users().len() + 1) as i32),
            )
            &&& after.lookup(payload.email@) == Some(
                stored_as(new_user(payload), (before.users().len() + 1) as i32),
            )
        },
        !before.registered(payload.email@) && before.users().len() >= i32::MAX ==> {
            &&& result matches Err(UserApplicationError::Unexpected(msg))
            &&& msg@ == identifiers_exhausted_message()
            &&& after == before
        },
{
    if !before.registered(payload.email@) && before.users().len() < i32::MAX {
        let id = (before.users().len() + 1) as i32;
        lemma_kept_user_is_found(before, stored_as(new_user(payload), id), after);
    }
}

} // verus!
