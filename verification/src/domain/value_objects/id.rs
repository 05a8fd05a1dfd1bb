use crate::domain::errors::user_entity_error::UserEntityError;
use vstd::prelude::*;
use vstd::std_specs::convert::FromSpecImpl;
use vstd::string::StringExecFns;

verus! {

/// Whether an entity has been given a durable identifier by the store.
#[derive(Debug, Clone, PartialEq)]
pub enum ID {
    /// No identifier has been assigned yet.
    New,
    /// The identifier the store assigned.
    Existing(i32),
}

impl ID {
    /// The identifier as a mathematical value, absent for `New`.
    pub open spec fn number(self) -> Option<int> {
        match self {
            ID::New => None,
            ID::Existing(id) => Some(id as int),
        }
    }

    /// An assigned identifier is strictly positive.
    pub open spec fn wf(self) -> bool {
        self matches ID::Existing(id) ==> id > 0
    }

    /// The identity of an entity that the store keeps under `value`.
    /// Identifiers are assigned from one upwards, so any other `value` is
    /// refused.
    pub fn assigned(value: i32) -> (id: Result<ID, UserEntityError>)
        ensures
            value > 0 ==> id == Ok::<ID, UserEntityError>(ID::Existing(value)),
            value <= 0 ==> id == Err::<ID, UserEntityError>(UserEntityError::InvalidId(value)),
    {
        if value <= 0 {
            return Err(UserEntityError::InvalidId(value));
        }
        Ok(ID::Existing(value))
    }

    /// The number that is written where the store wants an identifier. An
    /// identity that was never assigned has none, and is refused rather than
    /// written as some made-up number.
    pub fn to_sql(&self) -> (value: Result<i32, String>)
        ensures
            match *self {
                ID::Existing(id) => value == Ok::<i32, String>(id),
                ID::New => value matches Err(refusal) && refusal@ == "Cannot serialize UserId"@,
            },
    {
        match self {
            ID::New => Err(String::from_str("Cannot serialize UserId")),
            ID::Existing(id) => Ok(*id),
        }
    }
}

impl From<i32> for ID {
    /// The identity that `value` stands for: assigned where `value` can be
    /// an identifier, and not assigned where it is zero or negative. No
    /// identity with such a number is ever made; `ID::assigned` says why a
    /// number was refused.
    fn from(value: i32) -> (id: Self)
        ensures
            value > 0 ==> id == ID::Existing(value),
            value <= 0 ==> !(id is Existing),
            id.wf(),
    {
        if value > 0 {
            ID::Existing(value)
        } else {
            ID::New
        }
    }
}

impl FromSpecImpl<i32> for ID {
    open spec fn obeys_from_spec() -> bool {
        true
    }

    open spec fn from_spec(value: i32) -> ID {
        if value > 0 {
            ID::Existing(value)
        } else {
            ID::New
        }
    }
}

impl From<ID> for Option<i32> {
    /// The assigned identifier, or `None` where none was assigned: never a
    /// number that stands for "none".
    fn from(value: ID) -> (id: Self)
        ensures
            match value {
                ID::New => id is None,
                ID::Existing(assigned) => id == Some(assigned),
            },
    {
        match value {
            ID::New => None,
            ID::Existing(id) => Some(id),
        }
    }
}

impl FromSpecImpl<ID> for Option<i32> {
    open spec fn obeys_from_spec() -> bool {
        true
    }

    open spec fn from_spec(value: ID) -> Option<i32> {
        match value {
            ID::New => None,
            ID::Existing(id) => Some(id),
        }
    }
}

} // verus!
