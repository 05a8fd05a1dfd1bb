pub mod find_user_by_email;
pub mod get_user;
pub mod register_user;
