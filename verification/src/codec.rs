//! Text and byte encodings done by outside crates: standard base64 (`base64`), JSON string
//! literals (`serde_json`) and the byte buffer tokens are assembled in (`bytes`).
use vstd::prelude::*;

use base64::Engine;

verus! {

/// `base64::DecodeError`, the error of decoding text that is not base64.
#[verifier::external_type_specification]
#[verifier::external_body]
pub struct ExBase64DecodeError(base64::DecodeError);

/// `bytes::BytesMut`, the growable byte buffer.
#[verifier::external_type_specification]
#[verifier::external_body]
pub struct ExBytesMut(bytes::BytesMut);

/// The text that `BASE64_STANDARD.encode` gives for `bytes`.
pub uninterp spec fn base64_encode(bytes: Seq<u8>) -> Seq<char>;

/// The bytes that `BASE64_STANDARD.decode` gives back for the UTF-8 bytes of `text`, or
/// `None` where it returns an error.
pub uninterp spec fn base64_decode(text: Seq<char>) -> Option<Seq<u8>>;

/// The JSON text that `serde_json::to_string` gives for a string: the string quoted, with
/// the characters that JSON requires escaped.
pub uninterp spec fn json_string(s: Seq<char>) -> Seq<char>;

/// The bytes held by a `BytesMut`, in order.
pub uninterp spec fn bytes_mut_contents(b: bytes::BytesMut) -> Seq<u8>;

/// `BASE64_STANDARD.encode(bytes)`. The result is named; decoding it gives the bytes back
/// (the standard engine pads and decodes its own output, which the crate's round-trip tests
/// check). The length bound keeps the crate's size computation from overflowing, where it
/// panics.
#[verifier::external_body]
pub fn base64_encode_bytes(bytes: &[u8]) -> (res: String)
    requires
        bytes@.len() <= usize::MAX / 4,
    ensures
        res@ == base64_encode(bytes@),
        base64_decode(res@) == Some(bytes@),
{
    base64::prelude::BASE64_STANDARD.encode(bytes)
}

/// `BASE64_STANDARD.decode(text)`: `Ok` with the named bytes, or the crate's error where the
/// name says `None`.
#[verifier::external_body]
pub fn base64_decode_bytes(text: &str) -> (res: Result<Vec<u8>, base64::DecodeError>)
    ensures
        res is Ok <==> base64_decode(text@) is Some,
        res matches Ok(b) ==> base64_decode(text@) == Some(b@),
{
    base64::prelude::BASE64_STANDARD.decode(text)
}

/// `serde_json::to_string(s)`, which cannot fail for a string (the crate only fails for
/// maps with non-string keys and for types whose serializer fails).
#[verifier::external_body]
pub fn json_string_of(s: &str) -> (res: String)
    ensures
        res@ == json_string(s@),
{
    serde_json::to_string(s).unwrap()
}

/// `BytesMut::new()`: an empty buffer.
#[verifier::external_body]
pub fn bytes_mut_new() -> (res: bytes::BytesMut)
    ensures
        bytes_mut_contents(res) == Seq::<u8>::empty(),
{
    bytes::BytesMut::new()
}

/// `BytesMut::extend_from_slice`: appends `extend`. The buffer's capacity stays within
/// `isize::MAX`, past which the allocation panics.
#[verifier::external_body]
pub fn bytes_mut_extend(b: &mut bytes::BytesMut, extend: &[u8])
    requires
        bytes_mut_contents(*old(b)).len() + extend@.len() <= isize::MAX,
    ensures
        bytes_mut_contents(*final(b)) == bytes_mut_contents(*old(b)) + extend@,
{
    b.extend_from_slice(extend)
}

/// The buffer's bytes copied into a `Vec` (`to_vec` through its slice).
#[verifier::external_body]
pub fn bytes_mut_to_vec(b: &bytes::BytesMut) -> (res: Vec<u8>)
    ensures
        res@ == bytes_mut_contents(*b),
{
    b.to_vec()
}

} // verus!
