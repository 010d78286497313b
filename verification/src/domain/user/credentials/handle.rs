//! User handles: short names made of letters, digits and a few signs.
use vstd::prelude::*;
use vstd::std_specs::convert::TryFromSpecImpl;
use crate::utils::text::{blank, byte_len, find_outside, first_outside, is_blank};

verus! {

/// Why a text is no handle.
#[derive(Clone, Copy, Debug, PartialEq, Eq, Structural)]
pub enum HandleValidationErr {
    HandleEmpty,
    HandleTooLong,
    HandleContainsWhiteSpace,
    HandleContainsForbiddenChars(char),
}

/// The characters that a handle may hold.
pub const ALLOWED_HANDLE_CHARS: [char; 84] = [
    'a', 'b', 'c', 'd', 'e', 'f', 'g', 'h', 'i', 'j', 'k', 'l', 'm', 'n', 'o', 'p', 'q', 'r', 's',
    't', 'u', 'v', 'w', 'x', 'y', 'z', 'A', 'B', 'C', 'D', 'E', 'F', 'G', 'H', 'I', 'J', 'K', 'L',
    'M', 'N', 'O', 'P', 'Q', 'R', 'S', 'T', 'U', 'V', 'W', 'X', 'Y', 'Z', '0', '1', '2', '3', '4',
    '5', '6', '7', '8', '9', '!', '#', '$', '%', '&', '*', '+', ',', '-', '.', ':', ';', '=', '?',
    '@', '[', ']', '^', '_', '`', '|', '~',
];

/// The longest handle, in bytes.
pub const MAX_HANDLE_LENGTH: usize = 20;

/// What is wrong with a text as a handle, the first fault only: it is
/// blank, or longer than twenty bytes, or holds a character that is not
/// allowed; `None` where nothing is wrong.
pub open spec fn handle_fault(text: Seq<char>) -> Option<HandleValidationErr> {
    if blank(text) {
        Some(HandleValidationErr::HandleEmpty)
    } else if byte_len(text) > MAX_HANDLE_LENGTH {
        Some(HandleValidationErr::HandleTooLong)
    } else {
        match first_outside(text, ALLOWED_HANDLE_CHARS@) {
            Some(c) => Some(HandleValidationErr::HandleContainsForbiddenChars(c)),
            None => None,
        }
    }
}

/// What is wrong with a text as a handle, or `None` where it is a handle.
pub fn check_handle(text: &str) -> (fault: Option<HandleValidationErr>)
    ensures
        fault == handle_fault(text@),
{
    if is_blank(text) {
        Some(HandleValidationErr::HandleEmpty)
    } else if text.as_bytes().len() > MAX_HANDLE_LENGTH {
        Some(HandleValidationErr::HandleTooLong)
    } else {
        match find_outside(text, ALLOWED_HANDLE_CHARS.as_slice()) {
            Some(c) => Some(HandleValidationErr::HandleContainsForbiddenChars(c)),
            None => None,
        }
    }
}

/// A user handle: a text that has passed the handle rules.
#[derive(Debug)]
pub struct Handle(String);

impl Clone for Handle {
    fn clone(&self) -> (copy: Self)
        ensures
            copy@ == self@,
    {
        proof {
            use_type_invariant(self);
        }
        Handle(self.0.clone())
    }
}

impl View for Handle {
    type V = Seq<char>;

    closed spec fn view(&self) -> Seq<char> {
        self.0@
    }
}

impl Handle {
    #[verifier::type_invariant]
    closed spec fn well_formed(&self) -> bool {
        handle_fault(self.0@) is None
    }

    /// The handle that a text is, or what is wrong with the text.
    pub fn parse(value: String) -> (handle: Result<Handle, HandleValidationErr>)
        ensures
            match handle {
                Ok(h) => handle_fault(value@) is None && h@ == value@,
                Err(e) => handle_fault(value@) == Some(e),
            },
    {
        match check_handle(value.as_str()) {
            Some(fault) => Err(fault),
            None => Ok(Handle(value)),
        }
    }

    /// The handle that a request to change an account holds, if it holds one.
    pub fn parse_option(value: Option<String>) -> (handle: Result<Option<Handle>, HandleValidationErr>)
        ensures
            match value {
                None => handle matches Ok(None),
                Some(text) => match handle {
                    Ok(Some(h)) => handle_fault(text@) is None && h@ == text@,
                    Ok(None) => false,
                    Err(e) => handle_fault(text@) == Some(e),
                },
            },
    {
        match value {
            None => Ok(None),
            Some(text) => match Handle::parse(text) {
                Ok(h) => Ok(Some(h)),
                Err(e) => Err(e),
            },
        }
    }

    /// The text of the handle, which has no fault.
    pub fn as_ref(&self) -> (text: &str)
        ensures
            text@ == self@,
            handle_fault(self@) is None,
    {
        proof {
            use_type_invariant(self);
        }
        self.0.as_str()
    }

    /// Whether two handles are the same text.
    pub fn same(&self, other: &Handle) -> (yes: bool)
        ensures
            yes == (self@ == other@),
    {
        self.0.as_str().eq(other.0.as_str())
    }
}

impl TryFrom<String> for Handle {
    type Error = HandleValidationErr;

    fn try_from(value: String) -> (handle: Result<Self, Self::Error>)
        ensures
            match handle {
                Ok(h) => handle_fault(value@) is None && h@ == value@,
                Err(e) => handle_fault(value@) == Some(e),
            },
    {
        Handle::parse(value)
    }
}

impl TryFromSpecImpl<String> for Handle {
    open spec fn obeys_try_from_spec() -> bool {
        false
    }

    closed spec fn try_from_spec(value: String) -> Result<Self, HandleValidationErr> {
        arbitrary()
    }
}

impl<'a> TryFrom<&'a str> for Handle {
    type Error = HandleValidationErr;

    fn try_from(value: &'a str) -> (handle: Result<Self, Self::Error>)
        ensures
            match handle {
                Ok(h) => handle_fault(value@) is None && h@ == value@,
                Err(e) => handle_fault(value@) == Some(e),
            },
    {
        Handle::parse(value.to_owned())
    }
}

impl<'a> TryFromSpecImpl<&'a str> for Handle {
    open spec fn obeys_try_from_spec() -> bool {
        false
    }

    closed spec fn try_from_spec(value: &'a str) -> Result<Self, HandleValidationErr> {
        arbitrary()
    }
}

} // verus!
