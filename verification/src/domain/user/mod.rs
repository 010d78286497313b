//! Users and their credentials.
pub mod api;
pub mod credentials;
pub mod handle;

use vstd::prelude::*;
use crate::utils::clock::Timestamp;
use crate::utils::identity::Identity;
use crate::utils::text::{clone_option_text, option_text, same_option_text};
use credentials::email::{invalid_email_message, is_email, Email, EmailValidationErr};
use credentials::handle::{handle_fault, Handle, HandleValidationErr};
use credentials::password::{password_fault, Password, PasswordValidationErr};
use crate::utils::hashing::argon2_encoded;
use vstd::utf8::encode_utf8;
use crate::handlers::response::{bare, said, Response, ResponseView, Status};
use crate::utils::text::{debug_quoted, debug_text, text_of};
use vstd::string::StringExecFns;

verus! {

/// What a sign-up form holds once its three texts have passed the rules.
#[derive(Debug)]
pub struct UserSignupFormData {
    pub id: Identity,
    pub email: Email,
    pub handle: Handle,
    pub password: Password,
}

impl UserSignupFormData {
    /// The sign-up for the account `id` with the three texts of a form,
    /// the password hashed under the given salt; or the first fault of
    /// the texts, the email address looked at first, then the handle,
    /// then the password; or the failure of the hasher.
    pub fn parse(id: Identity, email: &str, handle: String, password: &str, salt: &[u8]) -> (form:
        Result<Self, UserValidationError>)
        ensures
            match form {
                Ok(f) => is_email(email@) && handle_fault(handle@) is None && password_fault(
                    password@,
                ) is None && f.id == id && f.email@ == email@ && f.handle@ == handle@
                    && argon2_encoded(
                    encode_utf8(password@),
                    salt@,
                ) == Some(f.password@),
                Err(UserValidationError::EmailValidationErr(
                    EmailValidationErr::EmailInvalidErr(message),
                )) => !is_email(email@) && message@ == invalid_email_message(email@),
                Err(UserValidationError::HandleValidationErr(fault)) => is_email(email@)
                    && handle_fault(handle@) == Some(fault),
                Err(UserValidationError::PasswordValidationErr(fault)) => is_email(email@)
                    && handle_fault(handle@) is None && match password_fault(password@) {
                    Some(rule) => fault == rule,
                    None => fault is ArgonErr && argon2_encoded(encode_utf8(password@), salt@)
                        is None,
                },
            },
    {
        let email = match Email::parse_str(email) {
            Ok(address) => address,
            Err(e) => {
                return Err(UserValidationError::EmailValidationErr(e));
            },
        };
        let handle = match Handle::parse(handle) {
            Ok(parsed) => parsed,
            Err(e) => {
                return Err(UserValidationError::HandleValidationErr(e));
            },
        };
        let password = match Password::parse_with_salt(password, salt) {
            Ok(kept) => kept,
            Err(e) => {
                return Err(UserValidationError::PasswordValidationErr(e));
            },
        };
        Ok(UserSignupFormData { id, email, handle, password })
    }
}

/// Why the texts of a sign-up are refused.
#[derive(Debug)]
pub enum UserValidationError {
    EmailValidationErr(EmailValidationErr),
    HandleValidationErr(HandleValidationErr),
    PasswordValidationErr(PasswordValidationErr),
}

/// What a user is told of a handle that is refused.
pub open spec fn handle_message(fault: HandleValidationErr) -> Seq<char> {
    match fault {
        HandleValidationErr::HandleEmpty => "User handle is empty"@,
        HandleValidationErr::HandleContainsWhiteSpace =>
            "User handle may not contain whitespace characters"@,
        HandleValidationErr::HandleTooLong =>
            "User handle is too long, must be no more than 20 characters"@,
        HandleValidationErr::HandleContainsForbiddenChars(c) =>
            "User handle contains forbidden character '"@ + seq![c] + "'"@,
    }
}

/// What a user is told of a password that is refused by the rules.
pub open spec fn password_message(fault: PasswordValidationErr) -> Seq<char> {
    match fault {
        PasswordValidationErr::PwdTooShort =>
            "Password is too short, must be no shorter than 8 characters"@,
        PasswordValidationErr::PwdTooLong =>
            "Password is too long, must be no more than 64 characters"@,
        PasswordValidationErr::PwdMissingLowercase =>
            "Password must contain at least one lowercase letter"@,
        PasswordValidationErr::PwdMissingUppercase =>
            "Password must contain at least one uppsercase letter"@,
        PasswordValidationErr::PwdMissingNumber => "Password must contain at least one number"@,
        PasswordValidationErr::PwdMissingChar =>
            "Password must contain at least one special character (\" # $ % & ' ( ) * + , - . / : ; < = > ? @ [ \\ ] ^ _ ` { | } ~ )"@,
        PasswordValidationErr::ArgonErr(_) => Seq::<char>::empty(),
    }
}

/// What a user is told of an email address that is refused.
pub open spec fn email_message(message: Seq<char>) -> Seq<char> {
    "Email is not valid: EmailInvalidErr("@ + debug_quoted(message) + ")"@
}

impl UserValidationError {
    /// The answer to a sign-up that is refused: what is wrong, as a bad
    /// request; a failure of the hasher is the server's own.
    pub open spec fn answer(self) -> ResponseView {
        match self {
            UserValidationError::EmailValidationErr(EmailValidationErr::EmailInvalidErr(message)) =>
                said(Status::BadRequest, email_message(message@)),
            UserValidationError::HandleValidationErr(fault) => said(
                Status::BadRequest,
                handle_message(fault),
            ),
            UserValidationError::PasswordValidationErr(PasswordValidationErr::ArgonErr(_)) => bare(
                Status::InternalServerError,
            ),
            UserValidationError::PasswordValidationErr(fault) => said(
                Status::BadRequest,
                password_message(fault),
            ),
        }
    }

    /// The answer to a sign-up that is refused.
    pub fn handle_http(&self) -> (response: Response)
        ensures
            response@ == self.answer(),
    {
        let body = match self {
            UserValidationError::EmailValidationErr(EmailValidationErr::EmailInvalidErr(message)) => {
                let mut body = "Email is not valid: EmailInvalidErr(".to_owned();
                body.append(debug_text(message.as_str()).as_str());
                body.append(")");
                body
            },
            UserValidationError::HandleValidationErr(fault) => match fault {
                HandleValidationErr::HandleEmpty => "User handle is empty".to_owned(),
                HandleValidationErr::HandleContainsWhiteSpace =>
                    "User handle may not contain whitespace characters".to_owned(),
                HandleValidationErr::HandleTooLong =>
                    "User handle is too long, must be no more than 20 characters".to_owned(),
                HandleValidationErr::HandleContainsForbiddenChars(c) => {
                    let mut body = "User handle contains forbidden character '".to_owned();
                    let one = [*c];
                    body.append(text_of(one.as_slice()).as_str());
                    body.append("'");
                    assert(body@ =~= handle_message(*fault));
                    body
                },
            },
            UserValidationError::PasswordValidationErr(fault) => match fault {
                PasswordValidationErr::PwdTooShort =>
                    "Password is too short, must be no shorter than 8 characters".to_owned(),
                PasswordValidationErr::PwdTooLong =>
                    "Password is too long, must be no more than 64 characters".to_owned(),
                PasswordValidationErr::PwdMissingLowercase =>
                    "Password must contain at least one lowercase letter".to_owned(),
                PasswordValidationErr::PwdMissingUppercase =>
                    "Password must contain at least one uppsercase letter".to_owned(),
                PasswordValidationErr::PwdMissingNumber =>
                    "Password must contain at least one number".to_owned(),
                PasswordValidationErr::PwdMissingChar =>
                    "Password must contain at least one special character (\" # $ % & ' ( ) * + , - . / : ; < = > ? @ [ \\ ] ^ _ ` { | } ~ )".to_owned(),
                PasswordValidationErr::ArgonErr(_) => {
                    return Response::finish(Status::InternalServerError);
                },
            },
        };
        Response::body(Status::BadRequest, body)
    }
}

/// An account, as it is stored.
#[derive(Debug)]
pub struct User {
    id: Identity,
    email: Email,
    handle: Handle,
    password: Password,
    name: Option<String>,
    profile_photo: Option<String>,
    bio: Option<String>,
    failed_attempts: i16,
    email_confirmed: bool,
    created_at: Timestamp,
    updated_at: Timestamp,
    deleted_at: Option<Timestamp>,
}

/// The mathematical value of a `User`.
pub struct UserView {
    pub id: Identity,
    pub email: Seq<char>,
    pub handle: Seq<char>,
    pub password: Seq<char>,
    pub name: Option<Seq<char>>,
    pub profile_photo: Option<Seq<char>>,
    pub bio: Option<Seq<char>>,
    pub failed_attempts: i16,
    pub email_confirmed: bool,
    pub created_at: Timestamp,
    pub updated_at: Timestamp,
    pub deleted_at: Option<Timestamp>,
}

impl View for User {
    type V = UserView;

    closed spec fn view(&self) -> UserView {
        UserView {
            id: self.id,
            email: self.email@,
            handle: self.handle@,
            password: self.password@,
            name: option_text(self.name),
            profile_photo: option_text(self.profile_photo),
            bio: option_text(self.bio),
            failed_attempts: self.failed_attempts,
            email_confirmed: self.email_confirmed,
            created_at: self.created_at,
            updated_at: self.updated_at,
            deleted_at: self.deleted_at,
        }
    }
}

impl User {
    /// The account with the given fields.
    pub fn new(
        id: Identity,
        email: Email,
        handle: Handle,
        password: Password,
        name: Option<String>,
        profile_photo: Option<String>,
        bio: Option<String>,
        failed_attempts: i16,
        email_confirmed: bool,
        created_at: Timestamp,
        updated_at: Timestamp,
        deleted_at: Option<Timestamp>,
    ) -> (made: Self)
        ensures
            made@ == (UserView {
                id: id,
                email: email@,
                handle: handle@,
                password: password@,
                name: option_text(name),
                profile_photo: option_text(profile_photo),
                bio: option_text(bio),
                failed_attempts: failed_attempts,
                email_confirmed: email_confirmed,
                created_at: created_at,
                updated_at: updated_at,
                deleted_at: deleted_at,
            }),
    {
        User { id, email, handle, password, name, profile_photo, bio, failed_attempts, email_confirmed, created_at, updated_at, deleted_at }
    }

    /// The id of the account.
    pub fn id(&self) -> (value: Identity)
        ensures
            value == self@.id,
    {
        self.id
    }

    /// The email address of the account.
    pub fn email(&self) -> (value: Email)
        ensures
            value@ == self@.email,
    {
        self.email.clone()
    }

    /// The handle of the account.
    pub fn handle(&self) -> (value: Handle)
        ensures
            value@ == self@.handle,
    {
        self.handle.clone()
    }

    /// The password of the account, as it is kept.
    pub fn password(&self) -> (value: Password)
        ensures
            value@ == self@.password,
    {
        self.password.clone()
    }

    /// The user's name, if given.
    pub fn name(&self) -> (value: Option<String>)
        ensures
            option_text(value) == self@.name,
    {
        clone_option_text(&self.name)
    }

    /// The address of the user's photo, if there is one.
    pub fn profile_photo(&self) -> (value: Option<String>)
        ensures
            option_text(value) == self@.profile_photo,
    {
        clone_option_text(&self.profile_photo)
    }

    /// What the user says of themself, if anything.
    pub fn bio(&self) -> (value: Option<String>)
        ensures
            option_text(value) == self@.bio,
    {
        clone_option_text(&self.bio)
    }

    /// The sign-ins that failed since the last one that did not.
    pub fn failed_attempts(&self) -> (value: i16)
        ensures
            value == self@.failed_attempts,
    {
        self.failed_attempts
    }

    /// Whether the user has confirmed the email address.
    pub fn email_confirmed(&self) -> (value: bool)
        ensures
            value == self@.email_confirmed,
    {
        self.email_confirmed
    }

    /// When the account was stored first.
    pub fn created_at(&self) -> (value: Timestamp)
        ensures
            value == self@.created_at,
    {
        self.created_at
    }

    /// When the account was changed last.
    pub fn updated_at(&self) -> (value: Timestamp)
        ensures
            value == self@.updated_at,
    {
        self.updated_at
    }

    /// When the account was deleted, if it was.
    pub fn deleted_at(&self) -> (value: Option<Timestamp>)
        ensures
            value == self@.deleted_at,
    {
        self.deleted_at
    }

    /// Puts `id` in place of what the field held.
    pub fn set_id(&mut self, id: Identity)
        ensures
            final(self)@ == (UserView { id: id, ..old(self)@ }),
    {
        self.id = id;
    }

    /// Puts `email` in place of what the field held.
    pub fn set_email(&mut self, email: Email)
        ensures
            final(self)@ == (UserView { email: email@, ..old(self)@ }),
    {
        self.email = email;
    }

    /// Puts `handle` in place of what the field held.
    pub fn set_handle(&mut self, handle: Handle)
        ensures
            final(self)@ == (UserView { handle: handle@, ..old(self)@ }),
    {
        self.handle = handle;
    }

    /// Puts `name` in place of what the field held.
    pub fn set_name(&mut self, name: Option<String>)
        ensures
            final(self)@ == (UserView { name: option_text(name), ..old(self)@ }),
    {
        self.name = name;
    }

    /// Puts `password` in place of what the field held.
    pub fn set_password(&mut self, password: Password)
        ensures
            final(self)@ == (UserView { password: password@, ..old(self)@ }),
    {
        self.password = password;
    }

    /// Puts `profile_photo` in place of what the field held.
    pub fn set_profile_photo(&mut self, profile_photo: Option<String>)
        ensures
            final(self)@ == (UserView { profile_photo: option_text(profile_photo), ..old(self)@ }),
    {
        self.profile_photo = profile_photo;
    }

    /// Puts `bio` in place of what the field held.
    pub fn set_bio(&mut self, bio: Option<String>)
        ensures
            final(self)@ == (UserView { bio: option_text(bio), ..old(self)@ }),
    {
        self.bio = bio;
    }

    /// Puts `email_confirmed` in place of what the field held.
    pub fn set_email_confirmed(&mut self, email_confirmed: bool)
        ensures
            final(self)@ == (UserView { email_confirmed: email_confirmed, ..old(self)@ }),
    {
        self.email_confirmed = email_confirmed;
    }

    /// Puts `updated_at` in place of what the field held.
    pub fn set_updated_at(&mut self, updated_at: Timestamp)
        ensures
            final(self)@ == (UserView { updated_at: updated_at, ..old(self)@ }),
    {
        self.updated_at = updated_at;
    }

    /// Puts `deleted_at` in place of what the field held.
    pub fn set_deleted_at(&mut self, deleted_at: Option<Timestamp>)
        ensures
            final(self)@ == (UserView { deleted_at: deleted_at, ..old(self)@ }),
    {
        self.deleted_at = deleted_at;
    }

    /// The account that a sign-up asks for: nothing failed, nothing
    /// confirmed, nothing deleted, and `now` as the moment of its storing
    /// and last change.
    pub fn from_signup(form: UserSignupFormData, now: Timestamp) -> (made: Self)
        ensures
            made@ == (UserView {
                id: form.id,
                email: form.email@,
                handle: form.handle@,
                password: form.password@,
                name: None,
                profile_photo: None,
                bio: None,
                failed_attempts: 0,
                email_confirmed: false,
                created_at: now,
                updated_at: now,
                deleted_at: None,
            }),
    {
        User {
            id: form.id,
            email: form.email,
            handle: form.handle,
            password: form.password,
            name: None,
            profile_photo: None,
            bio: None,
            failed_attempts: 0,
            email_confirmed: false,
            created_at: now,
            updated_at: now,
            deleted_at: None,
        }
    }

    /// Puts the address that a text is in place of the account's; a text
    /// that is no address changes nothing.
    pub fn set_email_string(&mut self, email: String) -> (done: Result<(), EmailValidationErr>)
        ensures
            match done {
                Ok(_) => is_email(email@) && final(self)@ == (UserView {
                    email: email@,
                    ..old(self)@
                }),
                Err(EmailValidationErr::EmailInvalidErr(message)) => !is_email(email@) && message@
                    == invalid_email_message(email@) && final(self)@ == old(self)@,
            },
    {
        match Email::parse_str(email.as_str()) {
            Ok(address) => {
                self.email = address;
                Ok(())
            },
            Err(e) => Err(e),
        }
    }

    /// Puts the handle that a text is in place of the account's; a text
    /// that is no handle changes nothing.
    pub fn set_handle_string(&mut self, handle: String) -> (done: Result<(), HandleValidationErr>)
        ensures
            match done {
                Ok(_) => handle_fault(handle@) is None && final(self)@ == (UserView {
                    handle: handle@,
                    ..old(self)@
                }),
                Err(e) => handle_fault(handle@) == Some(e) && final(self)@ == old(self)@,
            },
    {
        match Handle::parse(handle) {
            Ok(parsed) => {
                self.handle = parsed;
                Ok(())
            },
            Err(e) => Err(e),
        }
    }

    /// Counts one more failed sign-in.
    pub fn increment_failed_attempts(&mut self)
        requires
            old(self)@.failed_attempts < i16::MAX,
        ensures
            final(self)@ == (UserView {
                failed_attempts: (old(self)@.failed_attempts + 1) as i16,
                ..old(self)@
            }),
    {
        self.failed_attempts += 1;
    }

    /// Forgets the failed sign-ins.
    pub fn reset_failed_attempts(&mut self)
        ensures
            final(self)@ == (UserView { failed_attempts: 0, ..old(self)@ }),
    {
        self.failed_attempts = 0;
    }

    /// Whether two accounts are the same but for the password and the
    /// moments of their storing and last change.
    pub open spec fn matches(self: &User, other: &User) -> bool {
        &&& self@.id == other@.id
        &&& self@.email == other@.email
        &&& self@.handle == other@.handle
        &&& self@.name == other@.name
        &&& self@.profile_photo == other@.profile_photo
        &&& self@.bio == other@.bio
        &&& self@.failed_attempts == other@.failed_attempts
        &&& self@.email_confirmed == other@.email_confirmed
        &&& self@.deleted_at == other@.deleted_at
    }

    /// Whether two accounts are the same but for the password and the
    /// moments of their storing and last change.
    pub fn same(&self, other: &User) -> (yes: bool)
        ensures
            yes == self.matches(other),
    {
        self.id == other.id && self.email.same(&other.email) && self.handle.same(&other.handle)
            && same_option_text(&self.name, &other.name) && same_option_text(
            &self.profile_photo,
            &other.profile_photo,
        ) && same_option_text(&self.bio, &other.bio) && self.failed_attempts
            == other.failed_attempts && self.email_confirmed == other.email_confirmed
            && self.deleted_at == other.deleted_at
    }

    /// Whether the account is marked as deleted.
    pub fn is_deleted(&self) -> (yes: bool)
        ensures
            yes == self@.deleted_at is Some,
    {
        self.deleted_at.is_some()
    }
}

} // verus!
