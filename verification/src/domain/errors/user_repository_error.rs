use vstd::prelude::*;
use vstd::std_specs::convert::FromSpecImpl;
use vstd::string::StringExecFns;

verus! {

/// A failure of the store behind a user repository. Every cause is reported
/// as one kind, with a message that describes it.
#[derive(Debug, Clone, PartialEq)]
pub enum UserRepositoryError {
    DatabaseError(String),
}

impl UserRepositoryError {
    /// The diagnostic message the store gave.
    pub open spec fn message(self) -> Seq<char> {
        match self {
            UserRepositoryError::DatabaseError(msg) => msg@,
        }
    }

    /// The text shown for this error.
    pub open spec fn display(self) -> Seq<char> {
        "A database error occurred when handling users: "@ + self.message()
    }

    /// Renders the error as text.
    pub fn to_string(&self) -> (text: String)
        ensures
            text@ == self.display(),
    {
        match self {
            UserRepositoryError::DatabaseError(msg) => {
                String::from_str("A database error occurred when handling users: ").concat(
                    msg.as_str(),
                )
            },
        }
    }
}

impl From<UserRepositoryError> for String {
    fn from(value: UserRepositoryError) -> (text: Self)
        ensures
            text@ == value.display(),
    {
        value.to_string()
    }
}

impl FromSpecImpl<UserRepositoryError> for String {
    open spec fn obeys_from_spec() -> bool {
        false
    }

    open spec fn from_spec(value: UserRepositoryError) -> String {
        choose|text: String| text@ == value.display()
    }
}

} // verus!
