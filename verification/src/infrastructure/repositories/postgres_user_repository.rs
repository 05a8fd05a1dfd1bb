use crate::domain::entities::user::User;
use crate::domain::errors::user_entity_error::UserEntityError;
use crate::domain::errors::user_repository_error::UserRepositoryError;
use crate::domain::value_objects::id::ID;
use diesel::OptionalExtension;
use std::fmt::Write;
use vstd::prelude::*;

verus! {

/// The failure of a query, as `diesel` reports it. Nothing is known of what
/// such a value holds.
#[verifier::external_type_specification]
#[verifier::external_body]
pub struct ExQueryError(diesel::result::Error);

/// The text `diesel` displays a failure with. It is what `Display` for
/// `diesel::result::Error` writes, and depends on the failure alone.
pub uninterp spec fn displayed_failure(err: diesel::result::Error) -> Seq<char>;

/// Whether a failure is the one by which `diesel` says that a query for one
/// row found none (`diesel::result::Error::NotFound`).
pub uninterp spec fn says_no_row(err: diesel::result::Error) -> bool;

/// The text `diesel` displays `err` with (`Display` for
/// `diesel::result::Error`). Of the text itself nothing is claimed, only
/// that it is the one the failure is displayed with.
#[verifier::external_body]
fn query_error_text(err: &diesel::result::Error) -> (text: String)
    ensures
        text@ == displayed_failure(*err),
{
    let mut text = String::new();
    let _ = write!(text, "{err}");
    text
}

/// What `optional` makes of the outcome of a query for one row: a row that
/// was found is kept; a failure either becomes `None` or is handed on as it
/// is.
pub open spec fn made_optional(
    found: Result<UserRow, diesel::result::Error>,
    kept: Result<Option<UserRow>, diesel::result::Error>,
) -> bool {
    match found {
        Ok(row) => kept == Ok::<Option<UserRow>, diesel::result::Error>(Some(row)),
        Err(err) => kept == Ok::<Option<UserRow>, diesel::result::Error>(None) || kept == Err::<
            Option<UserRow>,
            diesel::result::Error,
        >(err),
    }
}

/// `diesel::OptionalExtension::optional`: a row that was found is kept; of
/// the failures, the one that says that no row was found becomes `None`, and
/// every other is handed on as it is.
#[verifier::external_body]
fn optional_row(found: Result<UserRow, diesel::result::Error>) -> (kept: Result<
    Option<UserRow>,
    diesel::result::Error,
>)
    ensures
        made_optional(found, kept),
        found matches Err(err) ==> (kept is Ok <==> says_no_row(err)),
{
    found.optional()
}

/// A row of the table of users, as it is read from the store.
#[derive(Debug, Clone, PartialEq)]
pub struct UserRow {
    pub id: i32,
    pub name: String,
    pub email: String,
    pub phone: String,
    pub address: String,
}

impl From<diesel::result::Error> for UserRepositoryError {
    /// A failed query is a failure of the store, with the text the query's
    /// failure is displayed with as its message.
    fn from(value: diesel::result::Error) -> (err: Self)
        ensures
            err.message() == displayed_failure(value),
    {
        UserRepositoryError::DatabaseError(query_error_text(&value))
    }
}

impl vstd::std_specs::convert::FromSpecImpl<diesel::result::Error> for UserRepositoryError {
    /// Only the characters of the message are known, not the `String` that
    /// holds them: the conversion is described by the `ensures` of `from`.
    open spec fn obeys_from_spec() -> bool {
        false
    }

    open spec fn from_spec(value: diesel::result::Error) -> UserRepositoryError {
        arbitrary()
    }
}

/// The reply of the repository to a request whose query ended in `outcome`:
/// what the query returned, or its failure as a failure of the store, with
/// the text the query's failure is displayed with as its message.
pub fn reply_of<T>(outcome: Result<T, diesel::result::Error>) -> (reply: Result<
    T,
    UserRepositoryError,
>)
    ensures
        outcome matches Ok(value) ==> reply == Ok::<T, UserRepositoryError>(value),
        outcome matches Err(failure) ==> (reply matches Err(err) && err.message()
            == displayed_failure(failure)),
{
    match outcome {
        Ok(value) => Ok(value),
        Err(err) => Err(UserRepositoryError::from(err)),
    }
}

/// The user that the row `row` holds. A row whose identifier is zero or
/// negative holds no user: it is reported as a failure of the store, with
/// the text of the refusal as its message.
pub fn user_of_row(row: UserRow) -> (user: Result<User, UserRepositoryError>)
    ensures
        row.id > 0 ==> user == Ok::<User, UserRepositoryError>(
            User {
                id: ID::Existing(row.id),
                name: row.name,
                email: row.email,
                phone: row.phone,
                address: row.address,
            },
        ),
        row.id <= 0 ==> (user matches Err(err) && err.message() == UserEntityError::InvalidId(
            row.id,
        ).display()),
{
    match User::restore(row.id, row.name, row.email, row.phone, row.address) {
        Ok(user) => Ok(user),
        Err(refusal) => Err(UserRepositoryError::DatabaseError(refusal.to_string())),
    }
}

/// The reply of the repository to a lookup whose query ended in `found`.
///
/// A row that was found is handed on as the user it holds. That no row was
/// found is no failure: the reply is then `None`. Every other failure of the
/// query is a failure of the store, with the text it is displayed with as
/// its message.
pub fn found_user(found: Result<UserRow, diesel::result::Error>) -> (reply: Result<
    Option<User>,
    UserRepositoryError,
>)
    ensures
        found matches Ok(row) ==> match reply {
            Ok(Some(user)) => row.id > 0 && user == (User {
                id: ID::Existing(row.id),
                name: row.name,
                email: row.email,
                phone: row.phone,
                address: row.address,
            }),
            Ok(None) => false,
            Err(err) => row.id <= 0 && err.message() == UserEntityError::InvalidId(
                row.id,
            ).display(),
        },
        found matches Err(failure) ==> (if says_no_row(failure) {
            reply == Ok::<Option<User>, UserRepositoryError>(None)
        } else {
            reply matches Err(err) && err.message() == displayed_failure(failure)
        }),
{
    match optional_row(found) {
        Ok(Some(row)) => match user_of_row(row) {
            Ok(user) => Ok(Some(user)),
            Err(err) => Err(err),
        },
        Ok(None) => Ok(None),
        Err(err) => Err(UserRepositoryError::from(err)),
    }
}

} // verus!
