pub mod user_application_error;
