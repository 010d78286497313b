//! The emails that the server sends, as they are handed to the mail service.
pub mod client;

use vstd::prelude::*;
use vstd::string::StringExecFns;
use crate::domain::user::credentials::email::Email;

verus! {

/// One email for the mail service.
#[derive(Debug)]
pub struct ServerEmail {
    pub sender: String,
    pub recipient: String,
    pub subject: String,
    pub body: String,
}

impl ServerEmail {
    /// The email from `sender` to `recipient`: its body is the HTML
    /// content followed by the text content.
    pub fn new(
        sender: Email,
        recipient: Email,
        subject: String,
        html_content: String,
        text_content: String,
    ) -> (email: Self)
        ensures
            email.sender@ == sender@,
            email.recipient@ == recipient@,
            email.subject@ == subject@,
            email.body@ == html_content@ + text_content@,
    {
        let mut body = html_content;
        body.append(text_content.as_str());
        ServerEmail {
            sender: sender.as_ref().to_owned(),
            recipient: recipient.as_ref().to_owned(),
            subject,
            body,
        }
    }
}

} // verus!
