use crate::domain::entities::user::User;
use crate::domain::value_objects::id::ID;
use vstd::prelude::*;
use vstd::std_specs::convert::FromSpecImpl;

verus! {

/// What a client sends to register a user.
#[derive(Clone)]
pub struct CreateUserDTO {
    pub name: String,
    pub email: String,
    pub phone: String,
    pub address: String,
}

/// A stored user as it is shown to a client.
#[derive(Debug, PartialEq)]
pub struct LoadedUserDTO {
    pub id: i32,
    pub name: String,
    pub email: String,
    pub phone: String,
    pub address: String,
}

impl From<User> for Option<LoadedUserDTO> {
    /// A user with an assigned identifier is shown with every field kept; a
    /// user without one cannot be shown.
    fn from(value: User) -> (dto: Self)
        ensures
            match value.id {
                ID::Existing(id) => dto == Some(
                    LoadedUserDTO {
                        id,
                        name: value.name,
                        email: value.email,
                        phone: value.phone,
                        address: value.address,
                    },
                ),
                ID::New => dto is None,
            },
    {
        match value.id {
            ID::Existing(id) => Some(
                LoadedUserDTO {
                    id,
                    name: value.name,
                    email: value.email,
                    phone: value.phone,
                    address: value.address,
                },
            ),
            ID::New => None,
        }
    }
}

impl FromSpecImpl<User> for Option<LoadedUserDTO> {
    open spec fn obeys_from_spec() -> bool {
        true
    }

    open spec fn from_spec(value: User) -> Option<LoadedUserDTO> {
        match value.id {
            ID::Existing(id) => Some(
                LoadedUserDTO {
                    id,
                    name: value.name,
                    email: value.email,
                    phone: value.phone,
                    address: value.address,
                },
            ),
            ID::New => None,
        }
    }
}

} // verus!
