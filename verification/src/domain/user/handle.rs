//! The handle under which other users see an account.
use vstd::prelude::*;
use super::credentials::handle::{handle_fault, Handle, HandleValidationErr};

verus! {

/// The handle of an account.
#[derive(Clone, Debug)]
pub struct UserHandle(Handle);

impl View for UserHandle {
    type V = Seq<char>;

    closed spec fn view(&self) -> Seq<char> {
        self.0@
    }
}

impl UserHandle {
    /// The handle that a text is, or what is wrong with the text.
    pub fn parse(handle: String) -> (parsed: Result<Self, HandleValidationErr>)
        ensures
            match parsed {
                Ok(h) => handle_fault(handle@) is None && h@ == handle@,
                Err(e) => handle_fault(handle@) == Some(e),
            },
    {
        match Handle::parse(handle) {
            Ok(h) => Ok(UserHandle(h)),
            Err(e) => Err(e),
        }
    }

    /// The text of the handle, which has no fault.
    pub fn as_ref(&self) -> (text: &str)
        ensures
            text@ == self@,
            handle_fault(self@) is None,
    {
        self.0.as_ref()
    }
}

} // verus!
