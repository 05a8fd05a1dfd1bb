pub mod user_entity_error;
pub mod user_repository_error;
