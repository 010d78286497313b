//! The credential rules in their plain form: a verdict on a text, with no
//! type that remembers it.
use vstd::prelude::*;
use vstd::utf8::encode_utf8;
use crate::utils::hashing::{
    argon2_encoded, hash_password, random_salt, verdict_of, verify_password,
};
use crate::utils::text::{blank, byte_len, find_inside, first_inside, is_blank};

verus! {

/// Why a handle or a password is refused.
#[derive(Debug)]
pub enum CredentialValidationError {
    HandleEmpty,
    HandleTooLong,
    HandleContainsForbiddenChars(char),
    PwdTooShort,
    PwdTooLong,
    PwdMissingLowercase,
    PwdMissingUppercase,
    PwdMissingNumber,
    PwdMissingChar,
    /// The password passed the rules and the hasher failed on it.
    ArgonErr(String),
}

/// The characters that no handle may hold.
pub const FORBIDDEN_HANDLE_CHARS: [char; 10] = ['/', '(', ')', '"', '\'', '<', '>', '\\', '{', '}'];

/// The special characters of a password, as bytes.
pub const PASSWORD_SPECIAL_BYTES: [u8; 33] = [
    32, 33, 34, 35, 36, 37, 38, 39, 40, 41, 42, 43, 44, 45, 46, 47, 58, 59, 60, 61, 62, 63, 64, 91,
    92, 93, 94, 95, 96, 123, 124, 125, 126,
];

/// What is wrong with a text as a handle, the first fault only: it is
/// blank, or longer than twenty bytes, or holds a forbidden character.
pub open spec fn plain_handle_fault(text: Seq<char>) -> Option<CredentialValidationError> {
    if blank(text) {
        Some(CredentialValidationError::HandleEmpty)
    } else if byte_len(text) > 20 {
        Some(CredentialValidationError::HandleTooLong)
    } else {
        match first_inside(text, FORBIDDEN_HANDLE_CHARS@) {
            Some(c) => Some(CredentialValidationError::HandleContainsForbiddenChars(c)),
            None => None,
        }
    }
}

/// Whether a text may serve as a handle.
pub fn is_valid_handle(handle: String) -> (verdict: Result<(), CredentialValidationError>)
    ensures
        match verdict {
            Ok(_) => plain_handle_fault(handle@) is None,
            Err(e) => plain_handle_fault(handle@) == Some(e),
        },
{
    let text = handle.as_str();
    if is_blank(text) {
        Err(CredentialValidationError::HandleEmpty)
    } else if text.as_bytes().len() > 20 {
        Err(CredentialValidationError::HandleTooLong)
    } else {
        match find_inside(text, FORBIDDEN_HANDLE_CHARS.as_slice()) {
            Some(c) => Err(CredentialValidationError::HandleContainsForbiddenChars(c)),
            None => Ok(()),
        }
    }
}

/// Whether bytes hold a lower-case letter.
pub open spec fn has_lower_byte(bytes: Seq<u8>) -> bool {
    exists|i: int| 0 <= i < bytes.len() && 97 <= #[trigger] bytes[i] <= 122
}

/// Whether bytes hold an upper-case letter.
pub open spec fn has_upper_byte(bytes: Seq<u8>) -> bool {
    exists|i: int| 0 <= i < bytes.len() && 65 <= #[trigger] bytes[i] <= 90
}

/// Whether bytes hold a digit.
pub open spec fn has_digit_byte(bytes: Seq<u8>) -> bool {
    exists|i: int| 0 <= i < bytes.len() && 48 <= #[trigger] bytes[i] <= 57
}

/// Whether bytes hold a special character.
pub open spec fn has_special_byte(bytes: Seq<u8>) -> bool {
    exists|i: int| 0 <= i < bytes.len() && PASSWORD_SPECIAL_BYTES@.contains(#[trigger] bytes[i])
}

/// What is wrong with the bytes of a text as a new password, the first
/// fault only: fewer than eight, more than sixty-four, or no lower-case
/// letter, no upper-case letter, no digit, no special character, asked in
/// this order.
pub open spec fn plain_password_fault(bytes: Seq<u8>) -> Option<CredentialValidationError> {
    if bytes.len() < 8 {
        Some(CredentialValidationError::PwdTooShort)
    } else if bytes.len() > 64 {
        Some(CredentialValidationError::PwdTooLong)
    } else if !has_lower_byte(bytes) {
        Some(CredentialValidationError::PwdMissingLowercase)
    } else if !has_upper_byte(bytes) {
        Some(CredentialValidationError::PwdMissingUppercase)
    } else if !has_digit_byte(bytes) {
        Some(CredentialValidationError::PwdMissingNumber)
    } else if !has_special_byte(bytes) {
        Some(CredentialValidationError::PwdMissingChar)
    } else {
        None
    }
}

/// Whether `PASSWORD_SPECIAL_BYTES` holds the byte.
fn is_special_byte(b: u8) -> (yes: bool)
    ensures
        yes == PASSWORD_SPECIAL_BYTES@.contains(b),
{
    let mut i: usize = 0;
    while i < PASSWORD_SPECIAL_BYTES.len()
        invariant
            i <= PASSWORD_SPECIAL_BYTES@.len(),
            forall|j: int| 0 <= j < i ==> PASSWORD_SPECIAL_BYTES@[j] != b,
        decreases PASSWORD_SPECIAL_BYTES@.len() - i,
    {
        if PASSWORD_SPECIAL_BYTES[i] == b {
            return true;
        }
        i += 1;
    }
    false
}

/// Whether a text may serve as a new password.
pub fn validate_password(password: &str) -> (verdict: Result<(), CredentialValidationError>)
    ensures
        match verdict {
            Ok(_) => plain_password_fault(encode_utf8(password@)) is None,
            Err(e) => plain_password_fault(encode_utf8(password@)) == Some(e),
        },
{
    let bytes = password.as_bytes();
    if bytes.len() < 8 {
        return Err(CredentialValidationError::PwdTooShort);
    }
    if bytes.len() > 64 {
        return Err(CredentialValidationError::PwdTooLong);
    }
    let mut has_lower = false;
    let mut has_upper = false;
    let mut has_number = false;
    let mut has_char = false;
    let mut i: usize = 0;
    while i < bytes.len()
        invariant
            i <= bytes@.len(),
            has_lower == has_lower_byte(bytes@.take(i as int)),
            has_upper == has_upper_byte(bytes@.take(i as int)),
            has_number == has_digit_byte(bytes@.take(i as int)),
            has_char == has_special_byte(bytes@.take(i as int)),
        decreases bytes@.len() - i,
    {
        let b = bytes[i];
        proof {
            lemma_byte_classes_step(bytes@, i as int);
        }
        if b >= 97 && b <= 122 {
            has_lower = true;
        }
        if b >= 65 && b <= 90 {
            has_upper = true;
        }
        if b >= 48 && b <= 57 {
            has_number = true;
        }
        if !has_char && is_special_byte(b) {
            has_char = true;
        }
        i += 1;
    }
    assert(bytes@.take(i as int) =~= bytes@);
    if !has_lower {
        return Err(CredentialValidationError::PwdMissingLowercase);
    }
    if !has_upper {
        return Err(CredentialValidationError::PwdMissingUppercase);
    }
    if !has_number {
        return Err(CredentialValidationError::PwdMissingNumber);
    }
    if !has_char {
        return Err(CredentialValidationError::PwdMissingChar);
    }
    Ok(())
}

/// One more byte adds its own classes to those of the bytes before it.
proof fn lemma_byte_classes_step(bytes: Seq<u8>, i: int)
    requires
        0 <= i < bytes.len(),
    ensures
        has_lower_byte(bytes.take(i + 1)) == (has_lower_byte(bytes.take(i)) || 97 <= bytes[i]
            <= 122),
        has_upper_byte(bytes.take(i + 1)) == (has_upper_byte(bytes.take(i)) || 65 <= bytes[i]
            <= 90),
        has_digit_byte(bytes.take(i + 1)) == (has_digit_byte(bytes.take(i)) || 48 <= bytes[i]
            <= 57),
        has_special_byte(bytes.take(i + 1)) == (has_special_byte(bytes.take(i))
            || PASSWORD_SPECIAL_BYTES@.contains(bytes[i])),
{
    let shorter = bytes.take(i);
    let longer = bytes.take(i + 1);
    assert(longer[i] == bytes[i]);
    assert(forall|j: int| 0 <= j < i ==> #[trigger] longer[j] == shorter[j]);
}

/// The encoded hash of a password that passes the rules, under the given
/// salt: the fault of the password where it has one, else the hash, else
/// the hasher's error.
pub fn hash_valid_password(password: &str, salt: &[u8]) -> (hashed: Result<
    String,
    CredentialValidationError,
>)
    ensures
        match plain_password_fault(encode_utf8(password@)) {
            Some(fault) => hashed == Err::<String, CredentialValidationError>(fault),
            None => match argon2_encoded(encode_utf8(password@), salt@) {
                Some(hash) => hashed matches Ok(h) && h@ == hash,
                None => hashed matches Err(CredentialValidationError::ArgonErr(_)),
            },
        },
{
    match validate_password(password) {
        Ok(_) => match hash_password(password, salt) {
            Ok(hash) => Ok(hash),
            Err(e) => Err(CredentialValidationError::ArgonErr(e)),
        },
        Err(e) => Err(e),
    }
}

/// The encoded hash of a password that passes the rules, under a fresh
/// random salt.
pub fn validate_and_hash_password(password: &str) -> (hashed: Result<
    String,
    CredentialValidationError,
>)
    ensures
        match plain_password_fault(encode_utf8(password@)) {
            Some(fault) => hashed == Err::<String, CredentialValidationError>(fault),
            None => exists|salt: Seq<u8>|
                match #[trigger] argon2_encoded(encode_utf8(password@), salt) {
                    Some(hash) => hashed matches Ok(h) && h@ == hash,
                    None => hashed matches Err(CredentialValidationError::ArgonErr(_)),
                },
        },
{
    let salt = random_salt();
    let hashed = hash_valid_password(password, salt.as_slice());
    proof {
        if plain_password_fault(encode_utf8(password@)) is None {
            assert(match argon2_encoded(encode_utf8(password@), salt@) {
                Some(hash) => hashed matches Ok(h) && h@ == hash,
                None => hashed matches Err(CredentialValidationError::ArgonErr(_)),
            });
        }
    }
    hashed
}

/// Whether a password is the one behind an encoded hash, or an error
/// where the text is no hash of this server.
pub fn compare_password_hash(password: &str, hash: &str) -> (verdict: Result<bool, String>)
    ensures
        match verdict {
            Ok(same) => verdict_of(hash@, password@) == Some(same),
            Err(_) => verdict_of(hash@, password@) is None,
        },
{
    verify_password(hash, password)
}

} // verus!
