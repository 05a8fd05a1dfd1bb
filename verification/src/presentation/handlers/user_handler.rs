use crate::application::errors::user_application_error::UserApplicationError;
use crate::application::use_cases::find_user_by_email::FindUserByEmailUseCase;
use crate::application::use_cases::register_user::RegisterUserUseCase;
use crate::domain::entities::user::User;
use crate::domain::repositories::user_repository::UserRepository;
use crate::presentation::dtos::user_dto::{CreateUserDTO, LoadedUserDTO};
use crate::presentation::errors::user_http_error::UserHttpError;
use crate::presentation::http_reply::{HttpReply, ReplyBody, STATUS_NOT_FOUND, STATUS_OK};
use vstd::prelude::*;
use vstd::std_specs::convert::FromSpec;
use vstd::string::StringExecFns;

verus! {

/// The profile fields of a user that is about to be stored.
#[derive(Debug, Clone)]
pub struct NewUser {
    pub name: String,
    pub email: String,
    pub phone: String,
    pub address: String,
}

/// The message of the reply sent when nobody is registered under `email`.
pub open spec fn not_found_message(email: Seq<char>) -> Seq<char> {
    "User not found by email: "@ + email
}

/// Whether `reply` reports the failure `err`: with the status of the
/// transport error that stands for it, and that error's text as its body.
pub open spec fn reports_failure(err: UserApplicationError, reply: HttpReply) -> bool {
    &&& reply.status == UserHttpError::from_spec(err).status()
    &&& reply.body matches ReplyBody::Text(text)
    &&& text@ == UserHttpError::from_spec(err).display()
}

/// Whether `reply` is the reply to a registration that ended in `result`.
pub open spec fn answers_registration(
    result: Result<i32, UserApplicationError>,
    reply: HttpReply,
) -> bool {
    match result {
        Ok(id) => reply == (HttpReply { status: STATUS_OK, body: ReplyBody::Id(id) }),
        Err(err) => reports_failure(err, reply),
    }
}

/// Whether `reply` is the reply to a lookup of `email` that ended in `result`.
pub open spec fn answers_lookup(
    email: Seq<char>,
    result: Result<Option<User>, UserApplicationError>,
    reply: HttpReply,
) -> bool {
    match result {
        Ok(Some(user)) => reply == (HttpReply {
            status: STATUS_OK,
            body: ReplyBody::User(Option::<LoadedUserDTO>::from_spec(user)),
        }),
        Ok(None) => {
            &&& reply.status == STATUS_NOT_FOUND
            &&& reply.body matches ReplyBody::Text(text)
            &&& text@ == not_found_message(email)
        },
        Err(err) => reports_failure(err, reply),
    }
}

/// The reply to a registration that ended in `result`: the assigned
/// identifier, or the failure as it is reported to a client.
pub fn registration_reply(result: Result<i32, UserApplicationError>) -> (reply: HttpReply)
    ensures
        answers_registration(result, reply),
{
    match result {
        Ok(id) => HttpReply { status: STATUS_OK, body: ReplyBody::Id(id) },
        Err(err) => UserHttpError::from(err).error_response(),
    }
}

/// The reply to a lookup of `email` that ended in `result`: the user as it is
/// shown to a client, a message that nobody was found, or the failure as it
/// is reported to a client.
pub fn lookup_reply(email: &str, result: Result<Option<User>, UserApplicationError>) -> (reply:
    HttpReply)
    ensures
        answers_lookup(email@, result, reply),
{
    match result {
        Ok(Some(user)) => {
            let loaded_user = Option::<LoadedUserDTO>::from(user);
            HttpReply { status: STATUS_OK, body: ReplyBody::User(loaded_user) }
        },
        Ok(None) => HttpReply {
            status: STATUS_NOT_FOUND,
            body: ReplyBody::Text(String::from_str("User not found by email: ").concat(email)),
        },
        Err(err) => UserHttpError::from(err).error_response(),
    }
}

/// Registers the user described by `input` and answers with the reply to
/// send.
pub fn register_user_handler<T: UserRepository>(
    use_case: &mut RegisterUserUseCase<T>,
    input: CreateUserDTO,
) -> (reply: HttpReply)
    ensures
        exists|result: Result<i32, UserApplicationError>|
            {
                &&& #[trigger] RegisterUserUseCase::<T>::registers(
                    old(use_case).repository(),
                    input,
                    result,
                    final(use_case).repository(),
                )
                &&& answers_registration(result, reply)
            },
{
    let result = use_case.execute(input);
    registration_reply(result)
}

/// Looks up the user registered under the email `path` and answers with the
/// reply to send.
pub fn get_by_email<T: UserRepository>(use_case: &FindUserByEmailUseCase<T>, path: String) -> (reply:
    HttpReply)
    ensures
        exists|result: Result<Option<User>, UserApplicationError>|
            {
                &&& #[trigger] FindUserByEmailUseCase::<T>::finds(
                    use_case.repository(),
                    path@,
                    result,
                )
                &&& answers_lookup(path@, result, reply)
            },
{
    let email = path;
    let result = use_case.execute(email.clone());
    lookup_reply(email.as_str(), result)
}

} // verus!
