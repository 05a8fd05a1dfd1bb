pub mod user_service;
