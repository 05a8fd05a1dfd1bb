//! Registration and lookup of users by email.
//!
//! A user is registered at most once under each email. What the store, the
//! application and the transport report when something fails is kept apart
//! in three kinds of error, each made from the one below it.

pub mod application;
pub mod domain;
pub mod infrastructure;
pub mod presentation;
pub mod text;
