use crate::application::errors::user_application_error::{
    UserApplicationError,
    UserApplicationErrorView,
};
use crate::domain::errors::user_repository_error::UserRepositoryError;
use crate::presentation::http_reply::{
    HttpReply,
    ReplyBody,
    STATUS_INTERNAL_SERVER_ERROR,
    STATUS_UNPROCESSABLE_ENTITY,
};
use vstd::prelude::*;
use vstd::std_specs::convert::FromSpec;
use vstd::string::StringExecFns;

verus! {

/// A failure as it is reported to a client.
#[derive(Debug, PartialEq)]
pub enum UserHttpError {
    /// The request broke a rule; the client may mend it.
    Constraint(String),
    /// The service failed.
    Internal(String),
}

/// What a `UserHttpError` says: its kind and the characters of its message.
pub enum UserHttpErrorView {
    Constraint(Seq<char>),
    Internal(Seq<char>),
}

impl View for UserHttpError {
    type V = UserHttpErrorView;

    open spec fn view(&self) -> UserHttpErrorView {
        match self {
            UserHttpError::Constraint(msg) => UserHttpErrorView::Constraint(msg@),
            UserHttpError::Internal(msg) => UserHttpErrorView::Internal(msg@),
        }
    }
}

impl UserHttpError {
    /// The message carried by the error, whatever its kind.
    pub open spec fn message(self) -> Seq<char> {
        match self {
            UserHttpError::Constraint(msg) => msg@,
            UserHttpError::Internal(msg) => msg@,
        }
    }

    /// The text shown for this error.
    pub open spec fn display(self) -> Seq<char> {
        match self {
            UserHttpError::Constraint(msg) => "A constraint error occurred for the user: "@ + msg@,
            UserHttpError::Internal(msg) => "An internal error occurred for the user: "@ + msg@,
        }
    }

    /// The status code this error is reported with.
    pub open spec fn status(self) -> u16 {
        match self {
            UserHttpError::Constraint(_) => STATUS_UNPROCESSABLE_ENTITY,
            UserHttpError::Internal(_) => STATUS_INTERNAL_SERVER_ERROR,
        }
    }

    /// Renders the error as text.
    pub fn to_string(&self) -> (text: String)
        ensures
            text@ == self.display(),
    {
        match self {
            UserHttpError::Constraint(msg) => {
                String::from_str("A constraint error occurred for the user: ").concat(msg.as_str())
            },
            UserHttpError::Internal(msg) => {
                String::from_str("An internal error occurred for the user: ").concat(msg.as_str())
            },
        }
    }

    /// The reply sent for this error: a client error for a broken rule, a
    /// server error otherwise, each with the error's text as its body.
    pub fn error_response(&self) -> (reply: HttpReply)
        ensures
            reply.status == self.status(),
            reply.body matches ReplyBody::Text(text) && text@ == self.display(),
    {
        match self {
            UserHttpError::Constraint(_) => HttpReply {
                status: STATUS_UNPROCESSABLE_ENTITY,
                body: ReplyBody::Text(self.to_string()),
            },
            UserHttpError::Internal(_) => HttpReply {
                status: STATUS_INTERNAL_SERVER_ERROR,
                body: ReplyBody::Text(self.to_string()),
            },
        }
    }
}

impl From<UserApplicationError> for UserHttpError {
    /// A conflict becomes a constraint error and an unexpected failure an
    /// internal error, each with its message untouched.
    fn from(value: UserApplicationError) -> (err: Self)
        ensures
            match value {
                UserApplicationError::Conflict(msg) => err == UserHttpError::Constraint(msg),
                UserApplicationError::Unexpected(msg) => err == UserHttpError::Internal(msg),
            },
    {
        match value {
            UserApplicationError::Conflict(msg) => UserHttpError::Constraint(msg),
            UserApplicationError::Unexpected(msg) => UserHttpError::Internal(msg),
        }
    }
}

impl vstd::std_specs::convert::FromSpecImpl<UserApplicationError> for UserHttpError {
    open spec fn obeys_from_spec() -> bool {
        true
    }

    open spec fn from_spec(value: UserApplicationError) -> UserHttpError {
        match value {
            UserApplicationError::Conflict(msg) => UserHttpError::Constraint(msg),
            UserApplicationError::Unexpected(msg) => UserHttpError::Internal(msg),
        }
    }
}


/// A store failure reaches the application as `Unexpected` and the client as
/// `Internal`, and both carry the message the store gave, character for
/// character. The text the store failure is displayed with is that same
/// message behind the store's own prefix, and so is never the message itself.
pub proof fn lemma_store_failure_keeps_its_message(failure: UserRepositoryError)
    ensures
        UserApplicationError::from_spec(failure)@ == UserApplicationErrorView::Unexpected(
            failure.message(),
        ),
        UserHttpError::from_spec(UserApplicationError::from_spec(failure))@
            == UserHttpErrorView::Internal(failure.message()),
        failure.display() == "A database error occurred when handling users: "@
            + UserApplicationError::from_spec(failure).message(),
        failure.display() != UserApplicationError::from_spec(failure).message(),
{
    reveal_strlit("A database error occurred when handling users: ");
    assert(failure.display().len() > failure.message().len());
}

/// An application failure is reported to the client by its kind alone: a
/// conflict as a constraint error, an unexpected failure as an internal
/// error. The message is the same, character for character, and therefore
/// so is what follows the prefix in the text that is displayed.
pub proof fn lemma_application_failure_keeps_its_message(failure: UserApplicationError)
    ensures
        failure is Conflict <==> UserHttpError::from_spec(failure) is Constraint,
        failure is Unexpected <==> UserHttpError::from_spec(failure) is Internal,
        UserHttpError::from_spec(failure).message() == failure.message(),
        failure@ matches UserApplicationErrorView::Conflict(msg) ==> UserHttpError::from_spec(
            failure,
        )@ == UserHttpErrorView::Constraint(msg),
        failure@ matches UserApplicationErrorView::Unexpected(msg) ==> UserHttpError::from_spec(
            failure,
        )@ == UserHttpErrorView::Internal(msg),
{
}

/// The kind of an error and its message can be read off the text it is
/// displayed with: two transport errors that are displayed alike are alike.
pub proof fn lemma_display_tells_errors_apart(first: UserHttpError, second: UserHttpError)
    requires
        first.display() == second.display(),
    ensures
        first@ == second@,
{
    reveal_strlit("A constraint error occurred for the user: ");
    reveal_strlit("An internal error occurred for the user: ");
    let constraint = "A constraint error occurred for the user: "@;
    let internal = "An internal error occurred for the user: "@;
    assert(first.display()[1] == second.display()[1]);
    assert(constraint[1] == ' ');
    assert(internal[1] == 'n');
    assert((constraint + first.message())[1] == ' ');
    assert((internal + first.message())[1] == 'n');
    assert((constraint + second.message())[1] == ' ');
    assert((internal + second.message())[1] == 'n');
    assert(first is Constraint <==> second is Constraint);
    if first is Constraint {
        assert(first.message() =~= (constraint + first.message()).subrange(
            constraint.len() as int,
            (constraint + first.message()).len() as int,
        ));
        assert(second.message() =~= (constraint + second.message()).subrange(
            constraint.len() as int,
            (constraint + second.message()).len() as int,
        ));
    } else {
        assert(first.message() =~= (internal + first.message()).subrange(
            internal.len() as int,
            (internal + first.message()).len() as int,
        ));
        assert(second.message() =~= (internal + second.message()).subrange(
            internal.len() as int,
            (internal + second.message()).len() as int,
        ));
    }
}

} // verus!
