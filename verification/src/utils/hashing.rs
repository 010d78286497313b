//! Password hashing with Argon2, and the random salt that goes into it.
use vstd::prelude::*;
use vstd::utf8::encode_utf8;
use crate::utils::text::starts_with;

verus! {

/// How every hash of this server begins: the variant, the version and
/// the costs that `Config::original()` names: Argon2i, version 19, 4096 KiB,
/// three passes, one lane.
pub const HASH_PREFIX: &'static str = "$argon2i$v=19$m=4096,t=3,p=1$";

/// The message for a text that does not begin as a hash of this server does.
pub open spec fn foreign_hash_message() -> Seq<char> {
    "Hash was not made with the parameters of this server"@
}

/// The number of bytes in a salt.
pub const SALT_LENGTH: usize = 16;

/// The encoded Argon2i hash of a password under a salt, with the costs
/// of this server; `None` where the hasher refuses the password or the
/// salt.
pub uninterp spec fn argon2_encoded(pwd: Seq<u8>, salt: Seq<u8>) -> Option<Seq<char>>;

/// Whether a password is the one behind an encoded hash; `None` where the
/// text is no encoded hash or its parameters are refused.
pub uninterp spec fn argon2_verdict(encoded: Seq<char>, pwd: Seq<u8>) -> Option<bool>;

/// `argon2::hash_encoded` with `Config::original()`: the encoded hash,
/// which begins with the variant, the version and the costs of that
/// configuration, or the text of the hasher's error.
#[verifier::external_body]
fn argon2_hash_encoded(pwd: &[u8], salt: &[u8]) -> (encoded: Result<String, String>)
    ensures
        match encoded {
            Ok(hash) => argon2_encoded(pwd@, salt@) == Some(hash@) && HASH_PREFIX@.is_prefix_of(
                hash@,
            ),
            Err(_) => argon2_encoded(pwd@, salt@) is None,
        },
{
    argon2::hash_encoded(pwd, salt, &argon2::Config::original()).map_err(|e| e.to_string())
}

/// `argon2::verify_encoded`: whether the password is the one behind the
/// encoded hash, or the text of the error for a text that is no encoded
/// hash. The hasher works with the costs that the text names, which may
/// be beyond any machine; the text is therefore to begin with the costs
/// of this server.
#[verifier::external_body]
fn argon2_verify_encoded(encoded: &str, pwd: &[u8]) -> (verdict: Result<bool, String>)
    requires
        HASH_PREFIX@.is_prefix_of(encoded@),
    ensures
        match verdict {
            Ok(same) => argon2_verdict(encoded@, pwd@) == Some(same),
            Err(_) => argon2_verdict(encoded@, pwd@) is None,
        },
{
    argon2::verify_encoded(encoded, pwd).map_err(|e| e.to_string())
}

/// `RngCore::fill_bytes` of `rand::thread_rng()` on sixteen bytes: a fresh
/// random salt, of which nothing is known.
#[verifier::external_body]
fn thread_rng_fill_salt() -> (salt: [u8; 16]) {
    let mut salt = [0u8; 16];
    rand::RngCore::fill_bytes(&mut rand::thread_rng(), &mut salt);
    salt
}

/// A fresh random salt.
pub fn random_salt() -> (salt: [u8; 16]) {
    thread_rng_fill_salt()
}

/// The encoded hash of a password under a salt, or the hasher's error.
pub fn hash_password(password: &str, salt: &[u8]) -> (encoded: Result<String, String>)
    ensures
        match encoded {
            Ok(hash) => argon2_encoded(encode_utf8(password@), salt@) == Some(hash@)
                && HASH_PREFIX@.is_prefix_of(hash@),
            Err(_) => argon2_encoded(encode_utf8(password@), salt@) is None,
        },
{
    argon2_hash_encoded(password.as_bytes(), salt)
}

/// What comparing a password with a kept text comes to: a text that does
/// not begin as a hash of this server does is not looked at further; of
/// any other, the hasher's verdict, or its error.
pub open spec fn verdict_of(encoded: Seq<char>, password: Seq<char>) -> Option<bool> {
    if HASH_PREFIX@.is_prefix_of(encoded) {
        argon2_verdict(encoded, encode_utf8(password))
    } else {
        None
    }
}

/// Whether a password is the one behind an encoded hash; an error for a
/// text that does not begin as a hash of this server does, or that the
/// hasher cannot read.
pub fn verify_password(encoded: &str, password: &str) -> (verdict: Result<bool, String>)
    ensures
        match verdict {
            Ok(same) => verdict_of(encoded@, password@) == Some(same),
            Err(message) => verdict_of(encoded@, password@) is None && (!HASH_PREFIX@.is_prefix_of(
                encoded@,
            ) ==> message@ == foreign_hash_message()),
        },
{
    if starts_with(encoded, HASH_PREFIX) {
        argon2_verify_encoded(encoded, password.as_bytes())
    } else {
        Err("Hash was not made with the parameters of this server".to_owned())
    }
}

} // verus!
