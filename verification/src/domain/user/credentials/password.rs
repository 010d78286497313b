//! Passwords: the rules for a new one, and the hash that is kept of it.
use vstd::prelude::*;
use vstd::utf8::encode_utf8;
use vstd::std_specs::convert::TryFromSpecImpl;
use crate::utils::hashing::{
    argon2_encoded, hash_password, random_salt, verdict_of, verify_password,
};
use crate::utils::text::{byte_len, holds, starts_with};

verus! {

/// The signs that count as the special character of a password.
pub const ALLOWED_PASSWORD_CHARS: [char; 33] = [
    ' ', '!', '"', '#', '$', '%', '&', '\'', '(', ')', '*', '+', ',', '-', '.', '/', ':', ';', '<',
    '=', '>', '?', '@', '[', '\\', ']', '^', '_', '`', '{', '|', '}', '~',
];

/// The shortest password, in bytes.
pub const MIN_PASSWORD_LENGTH: usize = 8;

/// The longest password, in bytes.
pub const MAX_PASSWORD_LENGTH: usize = 64;

/// Why a text is refused as a new password.
#[derive(Debug)]
pub enum PasswordValidationErr {
    PwdTooShort,
    PwdTooLong,
    PwdMissingLowercase,
    PwdMissingUppercase,
    PwdMissingNumber,
    PwdMissingChar,
    /// The text passed the rules and the hasher failed on it.
    ArgonErr(String),
}

/// The four kinds of character that a password must hold.
#[derive(Clone, Copy, Debug, PartialEq, Eq, Structural)]
pub enum CharClass {
    Lowercase,
    Uppercase,
    Number,
    Special,
}

/// Whether a character is of a class.
pub open spec fn in_class(c: char, class: CharClass) -> bool {
    match class {
        CharClass::Lowercase => 'a' <= c <= 'z',
        CharClass::Uppercase => 'A' <= c <= 'Z',
        CharClass::Number => '0' <= c <= '9',
        CharClass::Special => ALLOWED_PASSWORD_CHARS@.contains(c),
    }
}

/// Whether a text holds a character of a class.
pub open spec fn has_class(text: Seq<char>, class: CharClass) -> bool {
    exists|i: int| 0 <= i < text.len() && in_class(#[trigger] text[i], class)
}

/// What is wrong with a text as a new password, the first fault only:
/// fewer than eight bytes, more than sixty-four, or no lower-case letter,
/// no upper-case letter, no digit, no special character, asked in this
/// order; `None` where nothing is wrong.
pub open spec fn password_fault(text: Seq<char>) -> Option<PasswordValidationErr> {
    if byte_len(text) < MIN_PASSWORD_LENGTH {
        Some(PasswordValidationErr::PwdTooShort)
    } else if byte_len(text) > MAX_PASSWORD_LENGTH {
        Some(PasswordValidationErr::PwdTooLong)
    } else if !has_class(text, CharClass::Lowercase) {
        Some(PasswordValidationErr::PwdMissingLowercase)
    } else if !has_class(text, CharClass::Uppercase) {
        Some(PasswordValidationErr::PwdMissingUppercase)
    } else if !has_class(text, CharClass::Number) {
        Some(PasswordValidationErr::PwdMissingNumber)
    } else if !has_class(text, CharClass::Special) {
        Some(PasswordValidationErr::PwdMissingChar)
    } else {
        None
    }
}

/// Whether a character is of a class.
pub fn is_in_class(c: char, class: CharClass) -> (yes: bool)
    ensures
        yes == in_class(c, class),
{
    match class {
        CharClass::Lowercase => 'a' <= c && c <= 'z',
        CharClass::Uppercase => 'A' <= c && c <= 'Z',
        CharClass::Number => '0' <= c && c <= '9',
        CharClass::Special => holds(ALLOWED_PASSWORD_CHARS.as_slice(), c),
    }
}

/// Whether a text holds a character of a class.
pub fn holds_class(text: &str, class: CharClass) -> (yes: bool)
    ensures
        yes == has_class(text@, class),
{
    for c in it: text.chars()
        invariant
            it.seq() == text@,
            forall|j: int| 0 <= j < it.index() ==> !in_class(#[trigger] text@[j], class),
    {
        if is_in_class(c, class) {
            return true;
        }
    }
    false
}

/// A password as it is kept: the encoded hash of the text that the user
/// chose, or a text taken as it came from storage.
#[derive(Debug)]
pub struct Password(String);

impl Clone for Password {
    fn clone(&self) -> (copy: Self)
        ensures
            copy@ == self@,
    {
        Password(self.0.clone())
    }
}

impl View for Password {
    type V = Seq<char>;

    closed spec fn view(&self) -> Seq<char> {
        self.0@
    }
}

impl Password {
    /// The password that is kept as the given text, with no question asked.
    pub fn from_raw(password: String) -> (kept: Self)
        ensures
            kept@ == password@,
    {
        Password(password)
    }

    /// What is wrong with a text as a new password.
    pub fn validate(password: &str) -> (verdict: Result<(), PasswordValidationErr>)
        ensures
            match verdict {
                Ok(_) => password_fault(password@) is None,
                Err(e) => password_fault(password@) == Some(e),
            },
    {
        let length = password.as_bytes().len();
        if length < MIN_PASSWORD_LENGTH {
            return Err(PasswordValidationErr::PwdTooShort);
        }
        if length > MAX_PASSWORD_LENGTH {
            return Err(PasswordValidationErr::PwdTooLong);
        }
        if !holds_class(password, CharClass::Lowercase) {
            return Err(PasswordValidationErr::PwdMissingLowercase);
        }
        if !holds_class(password, CharClass::Uppercase) {
            return Err(PasswordValidationErr::PwdMissingUppercase);
        }
        if !holds_class(password, CharClass::Number) {
            return Err(PasswordValidationErr::PwdMissingNumber);
        }
        if !holds_class(password, CharClass::Special) {
            return Err(PasswordValidationErr::PwdMissingChar);
        }
        Ok(())
    }

    /// The password to keep for a text that passed the rules, given what
    /// the hasher made of it: the hash, or the hasher's error.
    pub fn from_hash(hashed: Result<String, String>) -> (kept: Result<
        Self,
        PasswordValidationErr,
    >)
        ensures
            match hashed {
                Ok(hash) => kept matches Ok(p) && p@ == hash@,
                Err(e) => kept matches Err(PasswordValidationErr::ArgonErr(f)) && f == e,
            },
    {
        match hashed {
            Ok(hash) => Ok(Password(hash)),
            Err(e) => Err(PasswordValidationErr::ArgonErr(e)),
        }
    }

    /// The password to keep for the text that a user chose, hashed under
    /// the given salt: the fault of the text where it has one, else the
    /// hash, else the hasher's error.
    pub fn parse_with_salt(password: &str, salt: &[u8]) -> (kept: Result<
        Self,
        PasswordValidationErr,
    >)
        ensures
            match password_fault(password@) {
                Some(fault) => kept == Err::<Self, PasswordValidationErr>(fault),
                None => match argon2_encoded(encode_utf8(password@), salt@) {
                    Some(hash) => kept matches Ok(p) && p@ == hash,
                    None => kept matches Err(PasswordValidationErr::ArgonErr(_)),
                },
            },
    {
        match Password::validate(password) {
            Ok(_) => Password::from_hash(hash_password(password, salt)),
            Err(e) => Err(e),
        }
    }

    /// The password to keep for the text that a user chose, hashed under a
    /// fresh random salt.
    pub fn parse(password: String) -> (kept: Result<Self, PasswordValidationErr>)
        ensures
            match password_fault(password@) {
                Some(fault) => kept == Err::<Self, PasswordValidationErr>(fault),
                None => exists|salt: Seq<u8>|
                    match #[trigger] argon2_encoded(encode_utf8(password@), salt) {
                        Some(hash) => kept matches Ok(p) && p@ == hash,
                        None => kept matches Err(PasswordValidationErr::ArgonErr(_)),
                    },
            },
    {
        let salt = random_salt();
        let kept = Password::parse_with_salt(password.as_str(), salt.as_slice());
        proof {
            if password_fault(password@) is None {
                let hashed = argon2_encoded(encode_utf8(password@), salt@);
                assert(match hashed {
                    Some(hash) => kept matches Ok(p) && p@ == hash,
                    None => kept matches Err(PasswordValidationErr::ArgonErr(_)),
                });
            }
        }
        kept
    }

    /// Whether a text begins as an encoded Argon2 hash does.
    pub open spec fn looks_hashed(text: Seq<char>) -> bool {
        "$argon2i$"@.is_prefix_of(text) || "$argon2d$"@.is_prefix_of(text) || "$argon2id$"@.is_prefix_of(
            text,
        )
    }

    /// Whether a text begins as an encoded Argon2 hash does.
    pub fn is_hashed(text: &str) -> (yes: bool)
        ensures
            yes == Self::looks_hashed(text@),
    {
        starts_with(text, "$argon2i$") || starts_with(text, "$argon2d$") || starts_with(
            text,
            "$argon2id$",
        )
    }

    /// The password that a stored or sent account holds: a text of more
    /// than sixty-four bytes that begins as a hash does is kept as it is;
    /// any other text is taken for a new password, held to the rules and
    /// hashed under the given salt.
    pub fn from_wire(value: String, salt: &[u8]) -> (kept: Result<Self, PasswordValidationErr>)
        ensures
            if byte_len(value@) > MAX_PASSWORD_LENGTH && Self::looks_hashed(value@) {
                kept matches Ok(p) && p@ == value@
            } else {
                match password_fault(value@) {
                    Some(fault) => kept == Err::<Self, PasswordValidationErr>(fault),
                    None => match argon2_encoded(encode_utf8(value@), salt@) {
                        Some(hash) => kept matches Ok(p) && p@ == hash,
                        None => kept matches Err(PasswordValidationErr::ArgonErr(_)),
                    },
                }
            },
    {
        if value.as_str().as_bytes().len() > MAX_PASSWORD_LENGTH && Password::is_hashed(
            value.as_str(),
        ) {
            Ok(Password::from_raw(value))
        } else {
            Password::parse_with_salt(value.as_str(), salt)
        }
    }

    /// The password that a request to change an account holds, if it
    /// holds one: a text that begins as a hash does is kept as it is; any
    /// other text is taken for a new password, held to the rules and
    /// hashed under the given salt.
    pub fn from_wire_option(value: Option<String>, salt: &[u8]) -> (kept: Result<
        Option<Self>,
        PasswordValidationErr,
    >)
        ensures
            match value {
                None => kept matches Ok(None),
                Some(text) => if Self::looks_hashed(text@) {
                    kept matches Ok(Some(p)) && p@ == text@
                } else {
                    match password_fault(text@) {
                        Some(fault) => kept == Err::<Option<Self>, PasswordValidationErr>(fault),
                        None => match argon2_encoded(encode_utf8(text@), salt@) {
                            Some(hash) => kept matches Ok(Some(p)) && p@ == hash,
                            None => kept matches Err(PasswordValidationErr::ArgonErr(_)),
                        },
                    }
                },
            },
    {
        match value {
            None => Ok(None),
            Some(text) => if Password::is_hashed(text.as_str()) {
                Ok(Some(Password::from_raw(text)))
            } else {
                match Password::parse_with_salt(text.as_str(), salt) {
                    Ok(p) => Ok(Some(p)),
                    Err(e) => Err(e),
                }
            },
        }
    }

    /// Whether a text is the one behind the kept hash, or an error where
    /// what is kept is no hash of this server.
    pub fn compare(&self, password: &str) -> (verdict: Result<bool, String>)
        ensures
            match verdict {
                Ok(same) => verdict_of(self@, password@) == Some(same),
                Err(_) => verdict_of(self@, password@) is None,
            },
    {
        verify_password(self.0.as_str(), password)
    }

    /// The text that is kept.
    pub fn inner(&self) -> (text: &String)
        ensures
            text@ == self@,
    {
        &self.0
    }

    /// The text that is kept.
    pub fn as_ref(&self) -> (text: &str)
        ensures
            text@ == self@,
    {
        self.0.as_str()
    }

    /// Whether two passwords are kept as the same text.
    pub fn same(&self, other: &Password) -> (yes: bool)
        ensures
            yes == (self@ == other@),
    {
        self.0.as_str().eq(other.0.as_str())
    }
}

impl TryFrom<String> for Password {
    type Error = PasswordValidationErr;

    fn try_from(value: String) -> (kept: Result<Self, Self::Error>)
        ensures
            match password_fault(value@) {
                Some(fault) => kept == Err::<Self, PasswordValidationErr>(fault),
                None => exists|salt: Seq<u8>|
                    match #[trigger] argon2_encoded(encode_utf8(value@), salt) {
                        Some(hash) => kept matches Ok(p) && p@ == hash,
                        None => kept matches Err(PasswordValidationErr::ArgonErr(_)),
                    },
            },
    {
        Password::parse(value)
    }
}

impl TryFromSpecImpl<String> for Password {
    open spec fn obeys_try_from_spec() -> bool {
        false
    }

    closed spec fn try_from_spec(value: String) -> Result<Self, PasswordValidationErr> {
        arbitrary()
    }
}

} // verus!
