pub mod in_memory_user_repository;
pub mod postgres_user_repository;
