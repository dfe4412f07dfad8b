//! Ed25519 key pairs and signatures, held as their byte encodings, with the signing and
//! checking done by `ed25519_dalek`.
use vstd::prelude::*;

use crate::codec::{base64_decode, base64_decode_bytes, base64_encode, base64_encode_bytes};
use ed25519_dalek::{Signer, Verifier};

verus! {

/// `ed25519_dalek::SignatureError`, the error of parsing keys and signatures and of a failed check.
#[verifier::external_type_specification]
#[verifier::external_body]
pub struct ExSignatureError(ed25519_dalek::ed25519::Error);

/// Whether `ed25519_dalek::Keypair::from_bytes` accepts `bytes` (64 bytes whose second
/// half decompresses to a curve point).
pub uninterp spec fn ed25519_keypair_accepted(bytes: Seq<u8>) -> bool;

/// The signature bytes that `Keypair::try_sign` produces for `message` under the key pair
/// encoded as `keypair` (Ed25519 signing is deterministic).
pub uninterp spec fn ed25519_sign(keypair: Seq<u8>, message: Seq<u8>) -> Seq<u8>;

/// Whether `Keypair::verify` accepts `signature` on `message` for the key pair encoded as
/// `keypair`.
pub uninterp spec fn ed25519_verifies(keypair: Seq<u8>, message: Seq<u8>, signature: Seq<u8>) -> bool;

/// The bytes that `ed25519::Signature::from_bytes` accepts: exactly 64 of them, with the
/// three highest bits of the last byte clear.
pub open spec fn sig_encoding_ok(bytes: Seq<u8>) -> bool {
    &&& bytes.len() == 64
    &&& bytes[63] & 0xe0u8 == 0
}

/// `ed25519::Signature::from_bytes` followed by `Signature::to_bytes`: the source accepts
/// exactly the encodings of `sig_encoding_ok` and keeps the bytes unchanged.
#[verifier::external_body]
pub(crate) fn signature_bytes_checked(bytes: &[u8]) -> (res: Result<[u8; 64], ed25519_dalek::ed25519::Error>)
    ensures
        res is Ok <==> sig_encoding_ok(bytes@),
        res matches Ok(b) ==> b@ == bytes@,
{
    match ed25519_dalek::Signature::from_bytes(bytes) {
        Ok(sig) => Ok(sig.to_bytes()),
        Err(e) => Err(e),
    }
}

/// `ed25519_dalek::Keypair::from_bytes` followed by `Keypair::to_bytes`: accepted exactly
/// when the name says so, only for 64 bytes, and the key pair keeps the bytes it was given
/// (the secret half is stored as is, the public half as its compressed form).
#[verifier::external_body]
fn keypair_bytes_checked(bytes: &[u8]) -> (res: Result<[u8; 64], ed25519_dalek::ed25519::Error>)
    ensures
        res is Ok <==> ed25519_keypair_accepted(bytes@),
        res matches Ok(b) ==> b@ == bytes@ && bytes@.len() == 64,
{
    match ed25519_dalek::Keypair::from_bytes(bytes) {
        Ok(kp) => Ok(kp.to_bytes()),
        Err(e) => Err(e),
    }
}

/// `ed25519_dalek::Keypair::generate` with the operating system's random source, returned
/// as `Keypair::to_bytes`. The public half is derived from the secret half, so the bytes
/// parse back as a key pair, and (as the crate documents) every signature it makes checks
/// out with it. Which key comes out is left open.
#[verifier::external_body]
fn generate_keypair_bytes() -> (res: [u8; 64])
    ensures
        ed25519_keypair_accepted(res@),
        forall|m: Seq<u8>| #[trigger] ed25519_verifies(res@, m, ed25519_sign(res@, m)),
{
    let mut rng = rand::rngs::OsRng {};
    ed25519_dalek::Keypair::generate(&mut rng).to_bytes()
}

/// `Keypair::try_sign` on the key pair encoded as `keypair`. The result is named, and
/// passes `ed25519::Signature::from_bytes` (the crate builds it through that call and
/// unwraps it).
#[verifier::external_body]
fn sign_bytes(keypair: &[u8; 64], message: &[u8]) -> (res: [u8; 64])
    requires
        ed25519_keypair_accepted(keypair@),
    ensures
        res@ == ed25519_sign(keypair@, message@),
        sig_encoding_ok(res@),
{
    let kp = ed25519_dalek::Keypair::from_bytes(keypair).unwrap();
    kp.try_sign(message).unwrap().to_bytes()
}

/// `Keypair::verify` of `signature` on `message`: `Ok` exactly when the name says so.
#[verifier::external_body]
fn verify_bytes(keypair: &[u8; 64], message: &[u8], signature: &[u8; 64]) -> (res: Result<
    (),
    ed25519_dalek::ed25519::Error,
>)
    requires
        ed25519_keypair_accepted(keypair@),
        sig_encoding_ok(signature@),
    ensures
        res is Ok <==> ed25519_verifies(keypair@, message@, signature@),
{
    let kp = ed25519_dalek::Keypair::from_bytes(keypair).unwrap();
    let sig = ed25519_dalek::Signature::from_bytes(signature).unwrap();
    kp.verify(message, &sig)
}

/// An Ed25519 key pair: 32 secret bytes followed by the 32 bytes of the public key.
pub struct KeyPair {
    bytes: [u8; 64],
}

impl View for KeyPair {
    type V = Seq<u8>;

    closed spec fn view(&self) -> Seq<u8> {
        self.bytes@
    }
}

/// Why a key pair or a token could not be read back from its text or bytes.
#[derive(Debug, Clone, Copy, PartialEq, Eq)]
pub enum ParseError {
    /// The text is not standard base64.
    Base64,
    /// The bytes do not encode a key pair or a signature.
    Signature,
}

impl KeyPair {
    /// Every `KeyPair` holds bytes that `ed25519_dalek` accepts as a key pair.
    #[verifier::type_invariant]
    closed spec fn inv(self) -> bool {
        ed25519_keypair_accepted(self.bytes@)
    }

    /// The key pair's signatures all check out with it: true of generated key pairs, not of
    /// one read from bytes whose public half belongs to another secret.
    pub open spec fn consistent(self) -> bool {
        forall|m: Seq<u8>| #[trigger] ed25519_verifies(self@, m, ed25519_sign(self@, m))
    }

    /// A fresh random key pair.
    pub fn generate() -> (kp: KeyPair)
        ensures
            ed25519_keypair_accepted(kp@),
            kp.consistent(),
    {
        KeyPair { bytes: generate_keypair_bytes() }
    }

    /// Signs `message`.
    pub fn sign(&self, message: &[u8]) -> (sig: [u8; 64])
        ensures
            sig@ == ed25519_sign(self@, message@),
            sig_encoding_ok(sig@),
    {
        proof {
            use_type_invariant(self);
        }
        sign_bytes(&self.bytes, message)
    }

    /// Checks `signature` on `message`.
    pub fn verify(&self, message: &[u8], signature: &[u8; 64]) -> (res: Result<
        (),
        ed25519_dalek::ed25519::Error,
    >)
        requires
            sig_encoding_ok(signature@),
        ensures
            res is Ok <==> ed25519_verifies(self@, message@, signature@),
    {
        proof {
            use_type_invariant(self);
        }
        verify_bytes(&self.bytes, message, signature)
    }

    /// Reads a key pair from its 64 bytes; `Err` exactly when `ed25519_dalek` refuses them.
    pub fn from_bytes(bytes: &[u8]) -> (res: Result<KeyPair, ed25519_dalek::ed25519::Error>)
        ensures
            res is Ok <==> ed25519_keypair_accepted(bytes@),
            res matches Ok(kp) ==> kp@ == bytes@,
    {
        match keypair_bytes_checked(bytes) {
            Ok(b) => Ok(KeyPair { bytes: b }),
            Err(e) => Err(e),
        }
    }

    /// The 64 bytes of the key pair.
    pub fn to_bytes(&self) -> (b: [u8; 64])
        ensures
            b@ == self@,
            ed25519_keypair_accepted(b@),
    {
        proof {
            use_type_invariant(self);
        }
        self.bytes
    }

    /// Reads a key pair from the standard base64 text of its bytes.
    pub fn from_str(s: &str) -> (res: Result<KeyPair, ParseError>)
        ensures
            match base64_decode(s@) {
                None => res == Err::<KeyPair, ParseError>(ParseError::Base64),
                Some(b) => {
                    &&& res is Ok <==> ed25519_keypair_accepted(b)
                    &&& res matches Ok(kp) ==> kp@ == b
                    &&& res is Err ==> res == Err::<KeyPair, ParseError>(ParseError::Signature)
                },
            },
    {
        match base64_decode_bytes(s) {
            Err(_) => Err(ParseError::Base64),
            Ok(bytes) => match KeyPair::from_bytes(bytes.as_slice()) {
                Ok(kp) => Ok(kp),
                Err(_) => Err(ParseError::Signature),
            },
        }
    }

    /// The standard base64 text of the key pair's bytes; `from_str` reads it back as this
    /// key pair.
    pub fn to_str(&self) -> (s: String)
        ensures
            s@ == base64_encode(self@),
            base64_decode(s@) == Some(self@),
            ed25519_keypair_accepted(self@),
    {
        let b = self.to_bytes();
        base64_encode_bytes(&b)
    }
}

/// The signing key to use given the text of the key file (`None` when it could not be
/// read): the key the text holds when it reads as one; otherwise a fresh key, which the
/// second component says is to be written to the file.
pub fn keypair_from_file_contents(contents: Option<&str>) -> (res: (KeyPair, bool))
    ensures
        match contents {
            Some(c) => match base64_decode(c@) {
                Some(b) => if ed25519_keypair_accepted(b) {
                    res.0@ == b && !res.1
                } else {
                    res.0.consistent() && res.1
                },
                None => res.0.consistent() && res.1,
            },
            None => res.0.consistent() && res.1,
        },
{
    match contents {
        Some(c) => match KeyPair::from_str(c) {
            Ok(kp) => (kp, false),
            Err(_) => (KeyPair::generate(), true),
        },
        None => (KeyPair::generate(), true),
    }
}

} // verus!
