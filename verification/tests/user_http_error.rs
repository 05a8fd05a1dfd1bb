use user_registry::application::errors::user_application_error::UserApplicationError;
use user_registry::domain::errors::user_repository_error::UserRepositoryError;
use user_registry::presentation::errors::user_http_error::UserHttpError;
use user_registry::presentation::http_reply::{HttpReply, ReplyBody};

fn text_of(reply: HttpReply) -> String {
    match reply.body {
        ReplyBody::Text(text) => text,
        _ => panic!("the reply carries no text"),
    }
}

#[test]
fn display_constraint_error() {
    let err_msg = "Constraint X violated";
    let err = UserHttpError::Constraint(err_msg.to_string());
    let err = err.to_string();

    assert_eq!(
        err,
        format!("A constraint error occurred for the user: {err_msg}")
    );
}

#[test]
fn display_internal_error() {
    let err_msg = "Database error";
    let err = UserHttpError::Internal(err_msg.to_string());
    let err = err.to_string();

    assert_eq!(
        err,
        format!("An internal error occurred for the user: {err_msg}")
    );
}

#[test]
fn from_user_application_conflict_error() {
    let err_msg = "Constraint X violated";
    let application_err = UserApplicationError::Conflict(err_msg.to_string());
    let err: UserHttpError = application_err.into();

    assert_eq!(err, UserHttpError::Constraint(err_msg.to_string()));
}

#[test]
fn from_user_application_internal_error() {
    let err_msg = "Database error";
    let application_err = UserApplicationError::Unexpected(err_msg.to_string());
    let err: UserHttpError = application_err.into();

    assert_eq!(err, UserHttpError::Internal(err_msg.to_string()));
}

#[test]
fn constraint_error_response() {
    let err = UserHttpError::Constraint("Constraint X violated".to_string());

    let result = err.error_response();

    let result_status = result.status;
    let result_body = text_of(result);

    assert_eq!(result_status, 422);
    assert_eq!(result_body.replace("\"", ""), err.to_string());
}

#[test]
fn internal_error_response() {
    let err = UserHttpError::Internal("Database error".to_string());

    let result = err.error_response();

    let result_status = result.status;
    let result_body = text_of(result);

    assert_eq!(result_status, 500);
    assert_eq!(result_body.replace("\"", ""), err.to_string());
}

#[test]
fn a_store_failure_reaches_the_client_as_internal_with_its_message() {
    let repo_err = UserRepositoryError::DatabaseError("y".to_string());
    let err = UserHttpError::from(UserApplicationError::from(repo_err));

    assert_eq!(err, UserHttpError::Internal("y".to_string()));
    assert_eq!(err.to_string(), "An internal error occurred for the user: y");
}
