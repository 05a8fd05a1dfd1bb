pub mod user_dto;
