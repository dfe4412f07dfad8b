//! Session tokens: signed claims about a user, carried in a cookie as base64 text, and the
//! password check of the login.
use vstd::prelude::*;
use vstd::utf8::encode_utf8;

use crate::clock::{local_now_timestamp, MAX_UTC_SECS};
use crate::codec::{
    base64_decode, base64_decode_bytes, base64_encode, base64_encode_bytes,
    bytes_mut_extend, bytes_mut_new, bytes_mut_to_vec,
};
use crate::encoding::{
    be_bytes_i64, str_eq, i64_from_be, i64_from_be_slice, i64_to_be_bytes, lemma_i64_be_roundtrip,
};
use crate::hashing::{blake2b_256, blake2b_256_of_parts};
use crate::models::Admin;
use crate::rejections::{InvalidLogin, Unauthorized};
use crate::signing::{ed25519_sign, ed25519_verifies, sig_encoding_ok, KeyPair, ParseError};

verus! {

/// How long a token stays valid after it is issued: 24 hours, in seconds.
pub const TOKEN_LIFETIME_SECS: i64 = 86400;

/// Length of a token's byte form: three 8-byte integers and a 64-byte signature.
pub const TOKEN_LEN: usize = 88;

/// What a token states: when it was issued, when it expires (Unix seconds) and whose it is.
#[derive(Debug, Clone, Copy, PartialEq, Eq, Structural)]
pub struct Claims {
    pub iat: i64,
    pub exp: i64,
    pub user_id: i64,
}

impl Claims {
    /// The bytes that are hashed and signed: user id, issue time, expiry, each big-endian.
    pub open spec fn message(self) -> Seq<u8> {
        be_bytes_i64(self.user_id) + be_bytes_i64(self.iat) + be_bytes_i64(self.exp)
    }

    /// The digest that the signature covers.
    pub open spec fn digest(self) -> Seq<u8> {
        blake2b_256(self.message())
    }

    /// Claims for `user_id` issued at `now`, expiring a day later.
    pub fn issued_at(user_id: i64, now: i64) -> (c: Claims)
        requires
            now <= i64::MAX - TOKEN_LIFETIME_SECS,
        ensures
            c == (Claims { iat: now, exp: (now + TOKEN_LIFETIME_SECS) as i64, user_id }),
    {
        Claims { user_id: user_id, iat: now, exp: now + TOKEN_LIFETIME_SECS }
    }

    /// Claims for `local_user_id` issued now, expiring a day later.
    pub fn from_user_id(local_user_id: i64) -> (c: Claims)
        ensures
            c.user_id == local_user_id,
            0 <= c.iat <= MAX_UTC_SECS,
            c.exp == c.iat + TOKEN_LIFETIME_SECS,
    {
        let now = local_now_timestamp();
        Claims::issued_at(local_user_id, now)
    }

    /// The 32-byte BLAKE2b digest of the claims' message.
    pub fn hash(&self) -> (h: [u8; 32])
        ensures
            h@ == self.digest(),
    {
        let a = i64_to_be_bytes(self.user_id);
        let b = i64_to_be_bytes(self.iat);
        let c = i64_to_be_bytes(self.exp);
        blake2b_256_of_parts(&a, &b, &c)
    }

    /// The token that carries these claims, signed with `keypair`. Signing does not fail.
    pub fn sign(self, keypair: &KeyPair) -> (res: Result<AuthnToken, Unauthorized>)
        ensures
            res matches Ok(t) && t.claims == self && t.sig@ == ed25519_sign(keypair@, self.digest())
                && t.wf(),
    {
        let h = self.hash();
        let sig = keypair.sign(&h);
        Ok(AuthnToken { claims: self, sig: sig })
    }
}

/// The byte form of a token with these claims and signature: issue time, expiry and user id
/// big-endian, then the signature.
pub open spec fn token_bytes(claims: Claims, sig: Seq<u8>) -> Seq<u8> {
    be_bytes_i64(claims.iat) + be_bytes_i64(claims.exp) + be_bytes_i64(claims.user_id) + sig
}

/// The claims read from the first 24 bytes of a token's byte form.
pub open spec fn parsed_claims(b: Seq<u8>) -> Claims {
    Claims {
        iat: i64_from_be(b.subrange(0, 8)),
        exp: i64_from_be(b.subrange(8, 16)),
        user_id: i64_from_be(b.subrange(16, 24)),
    }
}

/// The signature part of a token's byte form: everything after the first 24 bytes.
pub open spec fn parsed_sig(b: Seq<u8>) -> Seq<u8> {
    b.subrange(24, b.len() as int)
}

/// Whether the byte form `b` of a token is accepted at time `now` by the key pair `kp`:
/// the signature parses, the token has not expired, and the signature checks out.
pub open spec fn accepts_token_bytes(b: Seq<u8>, kp: Seq<u8>, now: i64) -> bool {
    &&& b.len() >= 24
    &&& sig_encoding_ok(parsed_sig(b))
    &&& now <= parsed_claims(b).exp
    &&& ed25519_verifies(kp, parsed_claims(b).digest(), parsed_sig(b))
}

/// A signed session token.
#[derive(Debug, Clone, Copy)]
pub struct AuthnToken {
    pub claims: Claims,
    pub sig: [u8; 64],
}

impl AuthnToken {
    /// The signature is one that `ed25519` can hold.
    pub open spec fn wf(self) -> bool {
        sig_encoding_ok(self.sig@)
    }

    /// The token's byte form.
    pub open spec fn bytes(self) -> Seq<u8> {
        token_bytes(self.claims, self.sig@)
    }

    /// Whether the token is accepted at time `now` by the key pair `kp`.
    pub open spec fn valid_at(self, kp: Seq<u8>, now: i64) -> bool {
        now <= self.claims.exp && ed25519_verifies(kp, self.claims.digest(), self.sig@)
    }

    /// A token for `user_id`, issued now and signed with `keypair`. Issuing does not fail.
    pub fn from_user_id(user_id: i64, keypair: &KeyPair) -> (res: Result<AuthnToken, Unauthorized>)
        ensures
            res matches Ok(t) && t.claims.user_id == user_id && 0 <= t.claims.iat <= MAX_UTC_SECS
                && t.claims.exp == t.claims.iat + TOKEN_LIFETIME_SECS && t.sig@ == ed25519_sign(
                keypair@,
                t.claims.digest(),
            ) && t.wf(),
    {
        Claims::from_user_id(user_id).sign(keypair)
    }

    /// A token for `user_id` issued at `now` and signed with `keypair`.
    pub fn issue_at(user_id: i64, keypair: &KeyPair, now: i64) -> (t: AuthnToken)
        requires
            now <= i64::MAX - TOKEN_LIFETIME_SECS,
        ensures
            t.claims == (Claims { iat: now, exp: (now + TOKEN_LIFETIME_SECS) as i64, user_id }),
            t.sig@ == ed25519_sign(keypair@, t.claims.digest()),
            t.wf(),
    {
        let c = Claims::issued_at(user_id, now);
        let h = c.hash();
        let sig = keypair.sign(&h);
        AuthnToken { claims: c, sig: sig }
    }

    /// Checks the token at time `now`: refused once `now` is past the expiry, or when the
    /// signature does not check out with `keypair`.
    pub fn verify_at(&self, keypair: &KeyPair, now: i64) -> (res: Result<(), Unauthorized>)
        requires
            self.wf(),
        ensures
            res is Ok <==> self.valid_at(keypair@, now),
            res is Err ==> res == Err::<(), Unauthorized>(Unauthorized),
    {
        if self.claims.exp < now {
            return Err(Unauthorized);
        }
        let h = self.claims.hash();
        match keypair.verify(&h, &self.sig) {
            Ok(_) => Ok(()),
            Err(_) => Err(Unauthorized),
        }
    }

    /// Checks the token at the current time. Which second that is depends on the clock, so
    /// the result is stated for some `now` the clock can give.
    pub fn verify(&self, keypair: &KeyPair) -> (res: Result<(), Unauthorized>)
        requires
            self.wf(),
        ensures
            exists|now: i64|
                0 <= now <= MAX_UTC_SECS && (res is Ok <==> #[trigger] self.valid_at(
                    keypair@,
                    now,
                )),
            res is Err ==> res == Err::<(), Unauthorized>(Unauthorized),
    {
        let now = local_now_timestamp();
        self.verify_at(keypair, now)
    }

    /// The token's 88-byte form.
    pub fn to_bytes(&self) -> (v: Vec<u8>)
        ensures
            v@ == self.bytes(),
            v@.len() == TOKEN_LEN,
    {
        let iat = i64_to_be_bytes(self.claims.iat);
        let exp = i64_to_be_bytes(self.claims.exp);
        let user_id = i64_to_be_bytes(self.claims.user_id);
        let mut b = bytes_mut_new();
        bytes_mut_extend(&mut b, &iat);
        bytes_mut_extend(&mut b, &exp);
        bytes_mut_extend(&mut b, &user_id);
        bytes_mut_extend(&mut b, &self.sig);
        let v = bytes_mut_to_vec(&b);
        assert(v@ =~= self.bytes());
        v
    }

    /// Reads a token from its byte form: the claims from the first 24 bytes and the
    /// signature from the rest, refused where the rest is not a signature. Shorter inputs
    /// are left out: the slicing panics on them.
    pub fn from_bytes(bytes: &[u8]) -> (res: Result<AuthnToken, ParseError>)
        requires
            bytes@.len() >= 24,
        ensures
            res is Ok <==> sig_encoding_ok(parsed_sig(bytes@)),
            res matches Ok(t) ==> t.claims == parsed_claims(bytes@) && t.sig@ == parsed_sig(
                bytes@,
            ) && t.wf(),
            res is Err ==> res == Err::<AuthnToken, ParseError>(ParseError::Signature),
    {
        let iat = i64_from_be_slice(bytes, 0);
        let exp = i64_from_be_slice(bytes, 8);
        let user_id = i64_from_be_slice(bytes, 16);
        let rest = &bytes[24..bytes.len()];
        assert(rest@ == parsed_sig(bytes@));
        match crate::signing::signature_bytes_checked(rest) {
            Ok(sig) => Ok(AuthnToken { claims: Claims { iat, exp, user_id }, sig: sig }),
            Err(_) => Err(ParseError::Signature),
        }
    }

    /// The token as standard base64 text; for a well-formed token, reading the text back
    /// gives the same token.
    pub fn to_str(&self) -> (s: String)
        ensures
            s@ == base64_encode(self.bytes()),
            base64_decode(s@) == Some(self.bytes()),
            self.bytes().len() >= 24,
            parsed_claims(self.bytes()) == self.claims,
            parsed_sig(self.bytes()) == self.sig@,
    {
        proof {
            lemma_token_bytes_roundtrip(self.claims, self.sig@);
        }
        let b = self.to_bytes();
        base64_encode_bytes(b.as_slice())
    }

    /// Reads a token from standard base64 text. Text whose bytes are too short for the
    /// claims is left out (the byte reader panics on it); `cookie_authn_step2` tests that
    /// before it calls.
    pub fn from_str(token: &str) -> (res: Result<AuthnToken, ParseError>)
        requires
            base64_decode(token@) matches Some(b) ==> b.len() >= 24,
        ensures
            match base64_decode(token@) {
                None => res == Err::<AuthnToken, ParseError>(ParseError::Base64),
                Some(b) => {
                    &&& res is Ok <==> sig_encoding_ok(parsed_sig(b))
                    &&& res matches Ok(t) ==> t.claims == parsed_claims(b) && t.sig@ == parsed_sig(b)
                        && t.wf()
                    &&& res is Err ==> res == Err::<AuthnToken, ParseError>(ParseError::Signature)
                },
            },
    {
        match base64_decode_bytes(token) {
            Err(_) => Err(ParseError::Base64),
            Ok(bytes) => AuthnToken::from_bytes(bytes.as_slice()),
        }
    }

    /// The `Set-Cookie` value that carries the token: its text, which reads back as the token.
    pub fn header_val(&self) -> (h: String)
        ensures
            h@ == "token="@ + base64_encode(self.bytes()) + ";Path=/;SameSite=Strict;Secure;HttpOnly"@,
            base64_decode(base64_encode(self.bytes())) == Some(self.bytes()),
    {
        let mut h = String::from_str("token=");
        let s = self.to_str();
        h.append(s.as_str());
        h.append(";Path=/;SameSite=Strict;Secure;HttpOnly");
        h
    }
}

/// A token's byte form reads back as the same claims and signature, and is 88 bytes long
/// for a 64-byte signature.
pub proof fn lemma_token_bytes_roundtrip(claims: Claims, sig: Seq<u8>)
    ensures
        token_bytes(claims, sig).len() == 24 + sig.len(),
        parsed_claims(token_bytes(claims, sig)) == claims,
        parsed_sig(token_bytes(claims, sig)) == sig,
{
    let b = token_bytes(claims, sig);
    lemma_i64_be_roundtrip(claims.iat);
    lemma_i64_be_roundtrip(claims.exp);
    lemma_i64_be_roundtrip(claims.user_id);
    assert(b.subrange(0, 8) =~= be_bytes_i64(claims.iat));
    assert(b.subrange(8, 16) =~= be_bytes_i64(claims.exp));
    assert(b.subrange(16, 24) =~= be_bytes_i64(claims.user_id));
    assert(parsed_sig(b) =~= sig);
}

/// What the cookie check gives for the text `text` at time `now` with the key pair `kp`:
/// refused when the text is not base64; otherwise accepted exactly when the decoded bytes
/// are, with the claims and signature read from them.
pub open spec fn cookie_result(
    text: Seq<char>,
    kp: Seq<u8>,
    now: i64,
    res: Result<AuthnToken, Unauthorized>,
) -> bool {
    &&& res is Err ==> res == Err::<AuthnToken, Unauthorized>(Unauthorized)
    &&& match base64_decode(text) {
        None => res is Err,
        Some(b) => {
            &&& res is Ok <==> accepts_token_bytes(b, kp, now)
            &&& res matches Ok(t) ==> t.claims == parsed_claims(b) && t.sig@ == parsed_sig(b)
        },
    }
}

/// The session check behind the `token` cookie, at time `now`: the text is decoded and read
/// as a token, which is then checked. Every failure is `Unauthorized`, including text whose
/// bytes are too short to hold the claims.
pub fn cookie_authn_at(token_str: &str, keypair: &KeyPair, now: i64) -> (res: Result<
    AuthnToken,
    Unauthorized,
>)
    ensures
        cookie_result(token_str@, keypair@, now, res),
{
    match base64_decode_bytes(token_str) {
        Err(_) => {
            return Err(Unauthorized);
        },
        Ok(bytes) => {
            if bytes.len() < 24 {
                return Err(Unauthorized);
            }
        },
    }
    let token = match AuthnToken::from_str(token_str) {
        Ok(t) => t,
        Err(_) => {
            return Err(Unauthorized);
        },
    };
    match token.verify_at(keypair, now) {
        Ok(_) => Ok(token),
        Err(_) => Err(Unauthorized),
    }
}

/// The session check behind the `token` cookie, at the current time.
pub fn cookie_authn_step2(token_str: &str, keypair: &KeyPair) -> (res: Result<
    AuthnToken,
    Unauthorized,
>)
    ensures
        exists|now: i64|
            0 <= now <= MAX_UTC_SECS && #[trigger] cookie_result(token_str@, keypair@, now, res),
{
    let now = local_now_timestamp();
    cookie_authn_at(token_str, keypair, now)
}

/// A token signed with a consistent key pair is accepted by that key pair exactly until it
/// expires, and refused from the first second after.
pub proof fn lemma_issued_token_valid_until_expiry(kp: KeyPair, t: AuthnToken, now: i64)
    requires
        kp.consistent(),
        t.wf(),
        t.sig@ == ed25519_sign(kp@, t.claims.digest()),
    ensures
        accepts_token_bytes(t.bytes(), kp@, now) <==> now <= t.claims.exp,
        t.valid_at(kp@, now) <==> now <= t.claims.exp,
{
    lemma_token_bytes_roundtrip(t.claims, t.sig@);
    assert(ed25519_verifies(kp@, t.claims.digest(), ed25519_sign(kp@, t.claims.digest())));
}

/// The text of a token signed with a consistent key pair passes the cookie check with that
/// key pair exactly until the token expires, and the check gives back the same token.
pub proof fn lemma_session_cookie_accepted_until_expiry(
    kp: KeyPair,
    t: AuthnToken,
    text: Seq<char>,
    now: i64,
    res: Result<AuthnToken, Unauthorized>,
)
    requires
        kp.consistent(),
        t.wf(),
        t.sig@ == ed25519_sign(kp@, t.claims.digest()),
        base64_decode(text) == Some(t.bytes()),
        cookie_result(text, kp@, now, res),
    ensures
        res is Ok <==> now <= t.claims.exp,
        res matches Ok(back) ==> back.claims == t.claims && back.sig@ == t.sig@,
{
    lemma_issued_token_valid_until_expiry(kp, t, now);
    lemma_token_bytes_roundtrip(t.claims, t.sig@);
}

/// The password check of a login. `password_ok` is the password verifier's verdict on the
/// given password against the stored hash (the hash carries its own salt, so the verifier,
/// not a fresh hash, decides). The stored admin is returned when the user name matches and
/// the verifier accepted the password; the login is refused otherwise.
pub fn login(admin: Admin, username: &str, password_ok: bool) -> (res: Result<Admin, InvalidLogin>)
    ensures
        res is Ok <==> (admin.username@ == username@ && password_ok),
        res matches Ok(a) ==> a == admin,
        res is Err ==> res == Err::<Admin, InvalidLogin>(InvalidLogin),
{
    if str_eq(admin.username.as_str(), username) && password_ok {
        Ok(admin)
    } else {
        Err(InvalidLogin)
    }
}

/// The user id a token carries for the account whose id is `id`: the first eight bytes,
/// read big-endian, of the BLAKE2b digest of the id's UTF-8 bytes.
pub open spec fn account_user_id(id: Seq<char>) -> i64 {
    i64_from_be(blake2b_256(encode_utf8(id)).subrange(0, 8))
}

/// The token user id of the account with id `id` (see `account_user_id`).
pub fn user_id_of(id: &str) -> (r: i64)
    ensures
        r == account_user_id(id@),
{
    let bytes = id.as_bytes();
    let none: [u8; 0] = [];
    let h = blake2b_256_of_parts(bytes, &none, &none);
    assert(bytes@ + none@ + none@ =~= encode_utf8(id@));
    i64_from_be_slice(&h, 0)
}

/// The session cookie a successful login sets (a token for the account's user id, signed
/// with a consistent key pair) passes the cookie check exactly until the token expires, and
/// the check gives back a token for that same account.
pub proof fn lemma_login_cookie_accepted_until_expiry(
    kp: KeyPair,
    admin: Admin,
    t: AuthnToken,
    text: Seq<char>,
    now: i64,
    res: Result<AuthnToken, Unauthorized>,
)
    requires
        kp.consistent(),
        t.wf(),
        t.claims.user_id == account_user_id(admin.id@),
        t.sig@ == ed25519_sign(kp@, t.claims.digest()),
        base64_decode(text) == Some(t.bytes()),
        cookie_result(text, kp@, now, res),
    ensures
        res is Ok <==> now <= t.claims.exp,
        res matches Ok(back) ==> back.claims.user_id == account_user_id(admin.id@),
{
    lemma_session_cookie_accepted_until_expiry(kp, t, text, now, res);
}

/// `s` written `n` times in a row.
pub open spec fn repeat(s: Seq<char>, n: nat) -> Seq<char>
    decreases n,
{
    if n == 0 {
        Seq::<char>::empty()
    } else {
        repeat(s, (n - 1) as nat) + s
    }
}

/// The phrase the default password-hashing secret is made of.
pub const SECRET_KEY_PHRASE: &'static str = "f7sigsef esf fh2dsjrd k56fg fshdj4g,fhjd6we easfra sfda2kg";

/// The password-hashing secret used when none is configured: the phrase eight times over.
pub fn default_secret_key() -> (s: String)
    ensures
        s@ == repeat(SECRET_KEY_PHRASE@, 8),
{
    let mut s = String::new();
    let mut i: usize = 0;
    while i < 8
        invariant
            i <= 8,
            s@ == repeat(SECRET_KEY_PHRASE@, i as nat),
        decreases 8 - i,
    {
        s.append(SECRET_KEY_PHRASE);
        i = i + 1;
    }
    s
}

/// The password-hashing secret given the `SECRET_KEY` setting (`None` when unset): the
/// setting when there is one, the default secret otherwise.
pub fn secret_key_from(setting: Option<String>) -> (s: String)
    ensures
        setting matches Some(v) ==> s == v,
        setting is None ==> s@ == repeat(SECRET_KEY_PHRASE@, 8),
{
    match setting {
        Some(v) => v,
        None => default_secret_key(),
    }
}

} // verus!
