pub mod entities;
pub mod errors;
pub mod repositories;
pub mod services;
pub mod value_objects;
