//! Email addresses.
use vstd::prelude::*;
use vstd::std_specs::convert::TryFromSpecImpl;
use vstd::string::StringExecFns;
use crate::utils::pattern::{is_match, regex_match};

verus! {

/// Why a text is no email address.
#[derive(Debug)]
pub enum EmailValidationErr {
    /// The text does not have the shape of an address; the message names the text.
    EmailInvalidErr(String),
}

/// The shape of an email address: a local part that starts and ends with a
/// letter or digit, an `@`, and a domain with a top level of two to four
/// letters or digits.
pub const EMAIL_PATTERN: &'static str =
    r"^[a-zA-Z0-9]{1}[\w\.\-]*[a-zA-Z0-9]+@[a-zA-Z0-9]{1}\.?(([\w\-]+)(\.?[a-zA-Z0-9]))+\.[a-zA-Z0-9]{2,4}$";

/// Whether a text has the shape of an email address.
pub open spec fn is_email(text: Seq<char>) -> bool {
    regex_match(EMAIL_PATTERN@, text) == Some(true)
}

/// The message for a text that is no email address.
pub open spec fn invalid_email_message(text: Seq<char>) -> Seq<char> {
    "Email "@ + text + " is invalid"@
}

/// An email address: a text that has the shape of one.
#[derive(Debug)]
pub struct Email(String);

impl View for Email {
    type V = Seq<char>;

    closed spec fn view(&self) -> Seq<char> {
        self.0@
    }
}

impl Clone for Email {
    fn clone(&self) -> (copy: Self)
        ensures
            copy@ == self@,
    {
        proof {
            use_type_invariant(self);
        }
        Email(self.0.clone())
    }
}

impl Email {
    #[verifier::type_invariant]
    closed spec fn well_formed(&self) -> bool {
        is_email(self.0@)
    }

    /// The address that a text is, given the verdict of the address
    /// pattern on that text: the text itself where the pattern matched,
    /// else the error that names it.
    pub fn from_verdict(email: &str, verdict: Option<bool>) -> (address: Result<
        Self,
        EmailValidationErr,
    >)
        requires
            verdict == regex_match(EMAIL_PATTERN@, email@),
        ensures
            match address {
                Ok(a) => verdict == Some(true) && a@ == email@,
                Err(EmailValidationErr::EmailInvalidErr(message)) => verdict != Some(true)
                    && message@ == invalid_email_message(email@),
            },
    {
        match verdict {
            Some(true) => Ok(Email(email.to_owned())),
            _ => {
                let mut message = "Email ".to_owned();
                message.append(email);
                message.append(" is invalid");
                Err(EmailValidationErr::EmailInvalidErr(message))
            },
        }
    }

    /// The address that a text is, or the error that names the text.
    pub fn parse_str(email: &str) -> (address: Result<Self, EmailValidationErr>)
        ensures
            match address {
                Ok(a) => is_email(email@) && a@ == email@,
                Err(EmailValidationErr::EmailInvalidErr(message)) => !is_email(email@) && message@
                    == invalid_email_message(email@),
            },
    {
        Email::from_verdict(email, is_match(EMAIL_PATTERN, email))
    }

    /// The address that a text is, or the error that names the text.
    pub fn parse(email: String) -> (address: Result<Self, EmailValidationErr>)
        ensures
            match address {
                Ok(a) => is_email(email@) && a@ == email@,
                Err(EmailValidationErr::EmailInvalidErr(message)) => !is_email(email@) && message@
                    == invalid_email_message(email@),
            },
    {
        Email::parse_str(email.as_str())
    }

    /// The address that a request to change an account holds, if it
    /// holds one.
    pub fn parse_option(email: Option<&str>) -> (address: Result<Option<Self>, EmailValidationErr>)
        ensures
            match email {
                None => address matches Ok(None),
                Some(text) => match address {
                    Ok(Some(a)) => is_email(text@) && a@ == text@,
                    Ok(None) => false,
                    Err(EmailValidationErr::EmailInvalidErr(message)) => !is_email(text@)
                        && message@ == invalid_email_message(text@),
                },
            },
    {
        match email {
            None => Ok(None),
            Some(text) => match Email::parse_str(text) {
                Ok(a) => Ok(Some(a)),
                Err(e) => Err(e),
            },
        }
    }

    /// The text of the address, which has the shape of one.
    pub fn as_ref(&self) -> (text: &str)
        ensures
            text@ == self@,
            is_email(self@),
    {
        proof {
            use_type_invariant(self);
        }
        self.0.as_str()
    }

    /// Whether two addresses are the same text.
    pub fn same(&self, other: &Email) -> (yes: bool)
        ensures
            yes == (self@ == other@),
    {
        self.0.as_str().eq(other.0.as_str())
    }
}

impl TryFrom<String> for Email {
    type Error = EmailValidationErr;

    fn try_from(value: String) -> (address: Result<Self, Self::Error>)
        ensures
            match address {
                Ok(a) => is_email(value@) && a@ == value@,
                Err(EmailValidationErr::EmailInvalidErr(message)) => !is_email(value@) && message@
                    == invalid_email_message(value@),
            },
    {
        Email::parse_str(value.as_str())
    }
}

impl TryFromSpecImpl<String> for Email {
    open spec fn obeys_try_from_spec() -> bool {
        false
    }

    closed spec fn try_from_spec(value: String) -> Result<Self, EmailValidationErr> {
        arbitrary()
    }
}

impl<'a> TryFrom<&'a str> for Email {
    type Error = EmailValidationErr;

    fn try_from(value: &'a str) -> (address: Result<Self, Self::Error>)
        ensures
            match address {
                Ok(a) => is_email(value@) && a@ == value@,
                Err(EmailValidationErr::EmailInvalidErr(message)) => !is_email(value@) && message@
                    == invalid_email_message(value@),
            },
    {
        Email::parse_str(value)
    }
}

impl<'a> TryFromSpecImpl<&'a str> for Email {
    open spec fn obeys_try_from_spec() -> bool {
        false
    }

    closed spec fn try_from_spec(value: &'a str) -> Result<Self, EmailValidationErr> {
        arbitrary()
    }
}

} // verus!
