use vstd::prelude::*;

pub mod auth;
pub mod clock;
pub mod codec;
pub mod dynamodb;
pub mod encoding;
pub mod handlers;
pub mod hashing;
pub mod imaging;
pub mod models;
pub mod rejections;
pub mod response;
pub mod signing;

verus! {

/// Largest request body the API accepts, in bytes (25 MiB).
pub const CONTENT_LIMIT: u64 = 26214400;

} // verus!
