pub mod user_http_error;
