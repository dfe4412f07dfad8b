//! The replies the API sends: a status code and a JSON body.
use vstd::prelude::*;

use crate::codec::{json_string, json_string_of};

verus! {

/// HTTP 200 OK.
pub const STATUS_OK: u16 = 200;
/// HTTP 201 Created.
pub const STATUS_CREATED: u16 = 201;
/// HTTP 400 Bad Request.
pub const STATUS_BAD_REQUEST: u16 = 400;
/// HTTP 404 Not Found.
pub const STATUS_NOT_FOUND: u16 = 404;
/// HTTP 405 Method Not Allowed.
pub const STATUS_METHOD_NOT_ALLOWED: u16 = 405;
/// HTTP 415 Unsupported Media Type.
pub const STATUS_UNSUPPORTED_MEDIA_TYPE: u16 = 415;
/// HTTP 500 Internal Server Error.
pub const STATUS_INTERNAL_SERVER_ERROR: u16 = 500;

/// A successful reply: the status code and the JSON text of the body.
#[derive(Debug, Clone)]
pub struct GenericResponse {
    pub status_code: u16,
    pub message: String,
}

impl Default for GenericResponse {
    /// `200` with an empty body.
    fn default() -> (r: Self)
        ensures
            r.status_code == STATUS_OK,
            r.message@ == Seq::<char>::empty(),
    {
        GenericResponse { status_code: STATUS_OK, message: String::new() }
    }
}

impl GenericResponse {
    /// A reply whose body is `message` written as a JSON string.
    pub fn new(status_code: u16, message: &str) -> (r: GenericResponse)
        ensures
            r.status_code == status_code,
            r.message@ == json_string(message@),
    {
        GenericResponse { status_code: status_code, message: json_string_of(message) }
    }

    /// A reply whose body is `message` as it stands.
    pub fn new_from_string(status_code: u16, message: String) -> (r: GenericResponse)
        ensures
            r.status_code == status_code,
            r.message@ == message@,
    {
        GenericResponse { status_code: status_code, message: message.clone() }
    }
}

/// An error reply: the status code and the message, which is sent as a JSON string.
#[derive(Debug, Clone)]
pub struct ApiError {
    pub status_code: u16,
    pub message: String,
}

impl Default for ApiError {
    /// `200` with an empty message.
    fn default() -> (r: Self)
        ensures
            r.status_code == STATUS_OK,
            r.message@ == Seq::<char>::empty(),
    {
        ApiError { status_code: STATUS_OK, message: String::new() }
    }
}

impl ApiError {
    /// An error reply with the given status and message.
    pub fn new(status_code: u16, message: String) -> (r: ApiError)
        ensures
            r.status_code == status_code,
            r.message@ == message@,
    {
        ApiError { status_code: status_code, message: message }
    }
}

} // verus!
