use crate::presentation::dtos::user_dto::LoadedUserDTO;
use vstd::prelude::*;

verus! {

/// Status of a request that was carried out.
pub const STATUS_OK: u16 = 200;

/// Status of a lookup that found nobody.
pub const STATUS_NOT_FOUND: u16 = 404;

/// Status of a request that broke a rule of the application.
pub const STATUS_UNPROCESSABLE_ENTITY: u16 = 422;

/// Status of a request that failed for a reason the client cannot mend.
pub const STATUS_INTERNAL_SERVER_ERROR: u16 = 500;

/// The value a reply carries, before it is written out for the wire.
#[derive(Debug, PartialEq)]
pub enum ReplyBody {
    /// The identifier assigned to a newly registered user.
    Id(i32),
    /// A user that was looked up; `None` is written as an empty value.
    User(Option<LoadedUserDTO>),
    /// A message.
    Text(String),
}

/// What is sent back for a request: a status code and a body.
#[derive(Debug, PartialEq)]
pub struct HttpReply {
    pub status: u16,
    pub body: ReplyBody,
}

} // verus!
