use crate::domain::errors::user_entity_error::UserEntityError;
use crate::domain::value_objects::id::ID;
use crate::presentation::dtos::user_dto::CreateUserDTO;
use vstd::prelude::*;
use vstd::std_specs::convert::FromSpecImpl;

verus! {

/// A user record. It is never changed after it is built.
#[derive(Debug, Clone, PartialEq)]
pub struct User {
    pub id: ID,
    pub name: String,
    pub email: String,
    pub phone: String,
    pub address: String,
}

/// What a `User` holds: its identifier, if one was assigned, and the
/// characters of each profile field.
pub struct UserView {
    pub id: Option<int>,
    pub name: Seq<char>,
    pub email: Seq<char>,
    pub phone: Seq<char>,
    pub address: Seq<char>,
}

impl View for User {
    type V = UserView;

    open spec fn view(&self) -> UserView {
        UserView {
            id: self.id.number(),
            name: self.name@,
            email: self.email@,
            phone: self.phone@,
            address: self.address@,
        }
    }
}

impl User {
    /// An assigned identifier is strictly positive.
    pub open spec fn wf(self) -> bool {
        self.id.wf()
    }

    /// A user that has not been stored yet.
    pub fn new(name: String, email: String, phone: String, address: String) -> (user: Self)
        ensures
            user == (User { id: ID::New, name, email, phone, address }),
            user@.id is None,
            user.wf(),
    {
        User { id: ID::New, name, email, phone, address }
    }

    /// A user as it was stored under `id`. Identifiers are assigned from one
    /// upwards, so any other `id` is refused.
    pub fn restore(id: i32, name: String, email: String, phone: String, address: String) -> (user:
        Result<Self, UserEntityError>)
        ensures
            id <= 0 ==> user == Err::<User, UserEntityError>(UserEntityError::InvalidId(id)),
            id > 0 ==> user == Ok::<User, UserEntityError>(
                User { id: ID::Existing(id), name, email, phone, address },
            ),
            user matches Ok(restored) ==> restored@.id == Some(id as int) && restored.wf(),
    {
        match ID::assigned(id) {
            Ok(id) => Ok(User { id, name, email, phone, address }),
            Err(refusal) => Err(refusal),
        }
    }
}

impl From<CreateUserDTO> for User {
    /// The user a payload describes: not stored yet, with every field kept.
    fn from(value: CreateUserDTO) -> (user: Self)
        ensures
            user == (User {
                id: ID::New,
                name: value.name,
                email: value.email,
                phone: value.phone,
                address: value.address,
            }),
    {
        User::new(value.name, value.email, value.phone, value.address)
    }
}

impl FromSpecImpl<CreateUserDTO> for User {
    open spec fn obeys_from_spec() -> bool {
        true
    }

    open spec fn from_spec(value: CreateUserDTO) -> User {
        User {
            id: ID::New,
            name: value.name,
            email: value.email,
            phone: value.phone,
            address: value.address,
        }
    }
}

} // verus!
