use crate::domain::errors::user_repository_error::UserRepositoryError;
use vstd::prelude::*;
use vstd::std_specs::convert::FromSpecImpl;
use vstd::string::StringExecFns;

verus! {

/// A failure reported by the application layer.
#[derive(Debug, PartialEq)]
pub enum UserApplicationError {
    /// A business rule was violated.
    Conflict(String),
    /// The store failed; the message is the one the store gave.
    Unexpected(String),
}

/// What a `UserApplicationError` says: its kind and the characters of its message.
pub enum UserApplicationErrorView {
    Conflict(Seq<char>),
    Unexpected(Seq<char>),
}

impl View for UserApplicationError {
    type V = UserApplicationErrorView;

    open spec fn view(&self) -> UserApplicationErrorView {
        match self {
            UserApplicationError::Conflict(msg) => UserApplicationErrorView::Conflict(msg@),
            UserApplicationError::Unexpected(msg) => UserApplicationErrorView::Unexpected(msg@),
        }
    }
}

impl UserApplicationError {
    /// The message carried by the error, whatever its kind.
    pub open spec fn message(self) -> Seq<char> {
        match self {
            UserApplicationError::Conflict(msg) => msg@,
            UserApplicationError::Unexpected(msg) => msg@,
        }
    }

    /// The text shown for this error.
    pub open spec fn display(self) -> Seq<char> {
        match self {
            UserApplicationError::Conflict(msg) =>
                "The following conflict occurred when writing a user: "@ + msg@,
            UserApplicationError::Unexpected(msg) => "An unexpected error occurred: "@ + msg@,
        }
    }

    /// Renders the error as text.
    pub fn to_string(&self) -> (text: String)
        ensures
            text@ == self.display(),
    {
        match self {
            UserApplicationError::Conflict(msg) => {
                String::from_str("The following conflict occurred when writing a user: ").concat(
                    msg.as_str(),
                )
            },
            UserApplicationError::Unexpected(msg) => {
                String::from_str("An unexpected error occurred: ").concat(msg.as_str())
            },
        }
    }
}

impl From<UserRepositoryError> for UserApplicationError {
    /// A store failure always becomes `Unexpected`, with the store's message
    /// untouched.
    fn from(value: UserRepositoryError) -> (err: Self)
        ensures
            value matches UserRepositoryError::DatabaseError(msg) && err
                == UserApplicationError::Unexpected(msg),
    {
        match value {
            UserRepositoryError::DatabaseError(msg) => UserApplicationError::Unexpected(msg),
        }
    }
}

impl FromSpecImpl<UserRepositoryError> for UserApplicationError {
    open spec fn obeys_from_spec() -> bool {
        true
    }

    open spec fn from_spec(value: UserRepositoryError) -> UserApplicationError {
        match value {
            UserRepositoryError::DatabaseError(msg) => UserApplicationError::Unexpected(msg),
        }
    }
}

} // verus!
