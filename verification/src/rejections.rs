//! The ways a request is refused, and the reply each refusal gets.
use vstd::prelude::*;

use crate::response::{
    ApiError, STATUS_BAD_REQUEST, STATUS_INTERNAL_SERVER_ERROR, STATUS_METHOD_NOT_ALLOWED,
    STATUS_NOT_FOUND, STATUS_UNSUPPORTED_MEDIA_TYPE,
};

verus! {

/// A form field or parameter the API does not know.
#[derive(Debug, Clone, Copy, PartialEq, Eq, Structural)]
pub struct InvalidParameter;

/// A user name and password that do not match.
#[derive(Debug, Clone, Copy, PartialEq, Eq, Structural)]
pub struct InvalidLogin;

/// A user that could not be found or logged in.
#[derive(Debug, Clone, Copy, PartialEq, Eq, Structural)]
pub struct InvalidUser;

/// An upload that is not an image.
#[derive(Debug, Clone, Copy, PartialEq, Eq, Structural)]
pub struct UnsupportedMediaType;

/// An upload whose body could not be read.
#[derive(Debug, Clone, Copy, PartialEq, Eq, Structural)]
pub struct FileReadError;

/// A missing, malformed, forged or expired session token.
#[derive(Debug, Clone, Copy, PartialEq, Eq, Structural)]
pub struct Unauthorized;

/// A stored record that could not be converted.
#[derive(Debug, Clone, Copy, PartialEq, Eq, Structural)]
pub struct ConversionError;

/// A password that could not be hashed.
#[derive(Debug, Clone, Copy, PartialEq, Eq, Structural)]
pub struct HashError;

/// A post that could not be found or updated.
#[derive(Debug, Clone, Copy, PartialEq, Eq, Structural)]
pub struct InvalidPost;

/// A database that is not set up as expected.
#[derive(Debug, Clone, Copy, PartialEq, Eq, Structural)]
pub struct InvalidDBConfig;

/// Any one of the refusals above.
#[derive(Debug, Clone, Copy, PartialEq, Eq, Structural)]
pub enum Rejections {
    InvalidParameter(InvalidParameter),
    InvalidLogin(InvalidLogin),
    InvalidUser(InvalidUser),
    UnsupportedMediaType(UnsupportedMediaType),
    FileReadError(FileReadError),
    Unauthorized(Unauthorized),
    HashError(HashError),
    ConversionError(ConversionError),
    InvalidPost(InvalidPost),
}

/// What a rejected request carries, as far as the reply depends on it: whether no route
/// matched, and which of the known causes it holds.
#[derive(Debug, Clone, Copy, PartialEq, Eq, Structural)]
pub struct RejectionSummary {
    pub not_found: bool,
    pub invalid_parameter: bool,
    pub invalid_login: bool,
    pub invalid_user: bool,
    pub unsupported_media_type: bool,
    pub file_read_error: bool,
    pub method_not_allowed: bool,
}

/// The status and message of the reply to a rejection: the first of these that applies,
/// in this order, and a server error for anything else.
pub open spec fn rejection_reply(err: RejectionSummary) -> (u16, Seq<char>) {
    if err.not_found {
        (STATUS_NOT_FOUND, "NOT_FOUND"@)
    } else if err.invalid_parameter {
        (STATUS_BAD_REQUEST, "BAD_REQUEST"@)
    } else if err.invalid_login {
        (STATUS_BAD_REQUEST, "Invalid Login"@)
    } else if err.invalid_user {
        (STATUS_BAD_REQUEST, "Invalid User"@)
    } else if err.unsupported_media_type {
        (STATUS_UNSUPPORTED_MEDIA_TYPE, "UNSUPPORTED_MEDIA_TYPE"@)
    } else if err.file_read_error {
        (STATUS_BAD_REQUEST, "FILE_READ_ERROR"@)
    } else if err.method_not_allowed {
        (STATUS_METHOD_NOT_ALLOWED, "METHOD_NOT_ALLOWED"@)
    } else {
        (STATUS_INTERNAL_SERVER_ERROR, "UNHANDLED_REJECTION"@)
    }
}

/// The error reply to a rejected request.
pub fn handle_rejection(err: &RejectionSummary) -> (r: ApiError)
    ensures
        r.status_code == rejection_reply(*err).0,
        r.message@ == rejection_reply(*err).1,
{
    if err.not_found {
        ApiError::new(STATUS_NOT_FOUND, String::from_str("NOT_FOUND"))
    } else if err.invalid_parameter {
        ApiError::new(STATUS_BAD_REQUEST, String::from_str("BAD_REQUEST"))
    } else if err.invalid_login {
        ApiError::new(STATUS_BAD_REQUEST, String::from_str("Invalid Login"))
    } else if err.invalid_user {
        ApiError::new(STATUS_BAD_REQUEST, String::from_str("Invalid User"))
    } else if err.unsupported_media_type {
        ApiError::new(STATUS_UNSUPPORTED_MEDIA_TYPE, String::from_str("UNSUPPORTED_MEDIA_TYPE"))
    } else if err.file_read_error {
        ApiError::new(STATUS_BAD_REQUEST, String::from_str("FILE_READ_ERROR"))
    } else if err.method_not_allowed {
        ApiError::new(STATUS_METHOD_NOT_ALLOWED, String::from_str("METHOD_NOT_ALLOWED"))
    } else {
        ApiError::new(STATUS_INTERNAL_SERVER_ERROR, String::from_str("UNHANDLED_REJECTION"))
    }
}

} // verus!
