use crustchan::auth::{
    cookie_authn_at, cookie_authn_step2, login, AuthnToken, Claims, TOKEN_LEN,
    TOKEN_LIFETIME_SECS,
};
use crustchan::clock::UtcTime;
use crustchan::models::Admin;
use crustchan::rejections::{InvalidLogin, Unauthorized};
use crustchan::signing::{KeyPair, ParseError};

use base64::Engine;
use crypto::digest::Digest;

fn hex(s: &str) -> Vec<u8> {
    (0..s.len()).step_by(2).map(|i| u8::from_str_radix(&s[i..i + 2], 16).unwrap()).collect()
}

/// The key pair of the first test vector of RFC 8032.
fn rfc_keypair() -> KeyPair {
    let mut bytes = hex("9d61b19deffd5a60ba844af492ec2cc44449c5697b326919703bac031cae7f60");
    bytes.extend(hex("d75a980182b10ab7d54bfed3c964073a0ee172f3daa62325af021a68f707511a"));
    KeyPair::from_bytes(&bytes).unwrap()
}

#[test]
fn keypair_signs_the_rfc8032_vector() {
    let kp = rfc_keypair();
    let sig = kp.sign(b"");
    assert_eq!(
        sig.to_vec(),
        hex("e5564300c360ac729086e2cc806e828a84877f1eb8e5d974d873e065224901555fb8821590a33bacc61e39701cf9b46bd25bf5f0595bbe24655141438e7a100b")
    );
    assert!(kp.verify(b"", &sig).is_ok());
    assert!(kp.verify(b"x", &sig).is_err());
}

#[test]
fn keypair_from_bytes_refuses_wrong_length() {
    assert!(KeyPair::from_bytes(&[0u8; 63]).is_err());
    assert!(KeyPair::from_bytes(&[0u8; 65]).is_err());
}

#[test]
fn keypair_text_roundtrip() {
    let kp = KeyPair::generate();
    let text = kp.to_str();
    assert_eq!(text, base64::prelude::BASE64_STANDARD.encode(kp.to_bytes()));
    let back = KeyPair::from_str(&text).unwrap();
    assert_eq!(back.to_bytes(), kp.to_bytes());
    assert_eq!(KeyPair::from_str("not base64!").err(), Some(ParseError::Base64));
    let short = base64::prelude::BASE64_STANDARD.encode([1u8; 10]);
    assert_eq!(KeyPair::from_str(&short).err(), Some(ParseError::Signature));
}

#[test]
fn generated_keypair_signs_and_checks() {
    let kp = KeyPair::generate();
    let sig = kp.sign(b"hello");
    assert!(kp.verify(b"hello", &sig).is_ok());
    let other = KeyPair::generate();
    assert!(other.verify(b"hello", &sig).is_err());
}

#[test]
fn claims_expire_a_day_after_issue() {
    let c = Claims::issued_at(7, 1_000);
    assert_eq!(c, Claims { iat: 1_000, exp: 1_000 + 86_400, user_id: 7 });
    assert_eq!(TOKEN_LIFETIME_SECS, 86_400);
    let now = Claims::from_user_id(3);
    assert_eq!(now.user_id, 3);
    assert_eq!(now.exp - now.iat, 86_400);
    assert!(now.iat > 1_600_000_000);
}

#[test]
fn claims_hash_is_blake2b_of_id_issue_and_expiry() {
    let c = Claims { iat: 11, exp: 22, user_id: 33 };
    let mut hasher = crypto::blake2b::Blake2b::new(32);
    let mut msg = Vec::new();
    msg.extend_from_slice(&33i64.to_be_bytes());
    msg.extend_from_slice(&11i64.to_be_bytes());
    msg.extend_from_slice(&22i64.to_be_bytes());
    hasher.input(&msg);
    let mut expected = [0u8; 32];
    hasher.result(&mut expected);
    assert_eq!(c.hash(), expected);
    assert_ne!(c.hash(), Claims { iat: 11, exp: 22, user_id: 34 }.hash());
}

#[test]
fn token_bytes_layout_and_roundtrip() {
    let kp = rfc_keypair();
    let t = AuthnToken::issue_at(5, &kp, 1_000);
    let b = t.to_bytes();
    assert_eq!(b.len(), TOKEN_LEN);
    assert_eq!(&b[0..8], &1_000i64.to_be_bytes());
    assert_eq!(&b[8..16], &(1_000i64 + 86_400).to_be_bytes());
    assert_eq!(&b[16..24], &5i64.to_be_bytes());
    assert_eq!(&b[24..], &t.sig[..]);
    assert_eq!(t.sig, kp.sign(&t.claims.hash()));
    let back = AuthnToken::from_bytes(&b).unwrap();
    assert_eq!(back.claims, t.claims);
    assert_eq!(back.sig, t.sig);
}

#[test]
fn token_from_bytes_refuses_a_bad_signature() {
    let mut b = vec![0u8; 24];
    let mut sig = [0u8; 64];
    sig[63] = 0xe0;
    b.extend_from_slice(&sig);
    assert_eq!(AuthnToken::from_bytes(&b).err(), Some(ParseError::Signature));
    assert_eq!(AuthnToken::from_bytes(&[0u8; 30]).err(), Some(ParseError::Signature));
    sig[63] = 0x1f;
    let mut ok = vec![0u8; 24];
    ok.extend_from_slice(&sig);
    assert!(AuthnToken::from_bytes(&ok).is_ok());
}

#[test]
fn token_text_roundtrip_and_cookie() {
    let kp = rfc_keypair();
    let t = AuthnToken::issue_at(9, &kp, 50);
    let text = t.to_str();
    assert_eq!(text, base64::prelude::BASE64_STANDARD.encode(t.to_bytes()));
    let back = AuthnToken::from_str(&text).unwrap();
    assert_eq!(back.claims, t.claims);
    assert_eq!(back.sig, t.sig);
    assert_eq!(
        t.header_val(),
        format!("token={};Path=/;SameSite=Strict;Secure;HttpOnly", text)
    );
    assert_eq!(AuthnToken::from_str("@@@").err(), Some(ParseError::Base64));
}

#[test]
fn token_accepted_until_expiry() {
    let kp = rfc_keypair();
    let t = AuthnToken::issue_at(1, &kp, 100);
    assert!(t.verify_at(&kp, 100).is_ok());
    assert!(t.verify_at(&kp, 100 + 86_400).is_ok());
    assert_eq!(t.verify_at(&kp, 100 + 86_401), Err(Unauthorized));
    let other = KeyPair::generate();
    assert_eq!(t.verify_at(&other, 100), Err(Unauthorized));
    let mut forged = t;
    forged.claims.user_id = 2;
    assert_eq!(forged.verify_at(&kp, 100), Err(Unauthorized));
}

#[test]
fn fresh_token_verifies_now() {
    let kp = KeyPair::generate();
    let t = AuthnToken::from_user_id(4, &kp).unwrap();
    assert_eq!(t.claims.user_id, 4);
    assert!(t.verify(&kp).is_ok());
    let cookie = cookie_authn_step2(&t.to_str(), &kp).unwrap();
    assert_eq!(cookie.claims, t.claims);
}

#[test]
fn cookie_check_refuses_bad_text() {
    let kp = rfc_keypair();
    assert_eq!(cookie_authn_at("not base64", &kp, 0).err(), Some(Unauthorized));
    let short = base64::prelude::BASE64_STANDARD.encode([0u8; 10]);
    assert_eq!(cookie_authn_at(&short, &kp, 0).err(), Some(Unauthorized));
    let t = AuthnToken::issue_at(1, &kp, 100);
    let ok = cookie_authn_at(&t.to_str(), &kp, 200).unwrap();
    assert_eq!(ok.claims, t.claims);
    assert_eq!(cookie_authn_at(&t.to_str(), &kp, 100 + 86_401).err(), Some(Unauthorized));
}

fn admin(username: &str, password: &str) -> Admin {
    Admin {
        id: "1".to_string(),
        username: username.to_string(),
        password: password.to_string(),
        created_at: UtcTime { secs: 0, nanos: 0 },
    }
}

#[test]
fn login_needs_name_and_verified_password() {
    let ok = login(admin("admin", "h1"), "admin", true).unwrap();
    assert_eq!(ok.username, "admin");
    assert_eq!(ok.password, "h1");
    assert_eq!(login(admin("admin", "h1"), "admin", false).err(), Some(InvalidLogin));
    assert_eq!(login(admin("admin", "h1"), "root", true).err(), Some(InvalidLogin));
}

#[test]
fn account_user_id_is_the_digest_prefix() {
    let id = "0b5f2c3e-8a41-4d6e-9f2b-1c7d8e9fa0b1";
    let mut hasher = crypto::blake2b::Blake2b::new(32);
    hasher.input(id.as_bytes());
    let mut digest = [0u8; 32];
    hasher.result(&mut digest);
    let mut first = [0u8; 8];
    first.copy_from_slice(&digest[0..8]);
    assert_eq!(crustchan::auth::user_id_of(id), i64::from_be_bytes(first));
    assert_ne!(crustchan::auth::user_id_of(id), crustchan::auth::user_id_of("other"));
}

#[test]
fn default_secret_is_the_phrase_eight_times() {
    let s = crustchan::auth::default_secret_key();
    assert_eq!(s, "f7sigsef esf fh2dsjrd k56fg fshdj4g,fhjd6we easfra sfda2kg".repeat(8));
}

#[test]
fn key_file_contents_choose_the_key() {
    let kp = rfc_keypair();
    let (read, write) = crustchan::signing::keypair_from_file_contents(Some(&kp.to_str()));
    assert_eq!(read.to_bytes(), kp.to_bytes());
    assert!(!write);
    let (fresh, write) = crustchan::signing::keypair_from_file_contents(Some("garbage"));
    assert!(write);
    assert_ne!(fresh.to_bytes(), kp.to_bytes());
    let (_, write) = crustchan::signing::keypair_from_file_contents(None);
    assert!(write);
}

#[test]
fn secret_key_setting_or_default() {
    assert_eq!(crustchan::auth::secret_key_from(Some("abc".to_string())), "abc");
    assert_eq!(
        crustchan::auth::secret_key_from(None),
        crustchan::auth::SECRET_KEY_PHRASE.repeat(8)
    );
}
