use crate::text::{decimal, push_decimal};
use vstd::prelude::*;
use vstd::string::StringExecFns;

verus! {

/// Why a user entity could not be built.
#[derive(Debug, PartialEq)]
pub enum UserEntityError {
    /// The identifier given for a stored user was zero or negative.
    InvalidId(i32),
}

impl UserEntityError {
    /// The text shown for this error.
    pub open spec fn display(self) -> Seq<char> {
        match self {
            UserEntityError::InvalidId(user_id) => "An invalid ID was given for a user: "@
                + decimal(user_id as int),
        }
    }

    /// Renders the error as text.
    pub fn to_string(&self) -> (text: String)
        ensures
            text@ == self.display(),
    {
        match self {
            UserEntityError::InvalidId(user_id) => {
                let mut text = String::from_str("An invalid ID was given for a user: ");
                push_decimal(&mut text, *user_id);
                text
            },
        }
    }
}

} // verus!
