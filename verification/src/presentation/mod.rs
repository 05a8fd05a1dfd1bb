pub mod dtos;
pub mod errors;
pub mod handlers;
pub mod http_reply;
