pub mod user_repository;
