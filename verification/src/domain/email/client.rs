//! What the client of the mail service sends: where, and which email.
use vstd::prelude::*;
use vstd::string::StringExecFns;
use super::ServerEmail;
use crate::domain::user::credentials::email::Email;

verus! {

/// The subject of the email that asks a user to confirm an address.
pub open spec fn confirmation_subject() -> Seq<char> {
    "Confirm Your Email"@
}

/// The body of the email that asks a user to confirm an address: a link
/// to the confirmation path of the token.
pub open spec fn confirmation_body(token: Seq<char>) -> Seq<char> {
    "<a href=\"/confirm/"@ + token + "\""@
}

/// The client of the mail service: where the service is, and in whose
/// name the server writes.
#[derive(Debug)]
pub struct Client {
    base_url: String,
    sender: Email,
}

impl Client {
    /// Where the service is.
    pub closed spec fn base_url(&self) -> Seq<char> {
        self.base_url@
    }

    /// In whose name the server writes.
    pub closed spec fn sender(&self) -> Seq<char> {
        self.sender@
    }

    /// A client of the service at `base_url` that writes in the name of `sender`.
    pub fn new(base_url: String, sender: Email) -> (client: Self)
        ensures
            client.base_url() == base_url@,
            client.sender() == sender@,
    {
        Client { base_url, sender }
    }

    /// The address that an email is posted to.
    pub fn send_url(&self) -> (url: String)
        ensures
            url@ == self.base_url() + "/send"@,
    {
        let mut url = self.base_url.clone();
        url.append("/send");
        url
    }

    /// The email to post for the given recipient and contents.
    pub fn send_email(
        &self,
        recipient: Email,
        subject: String,
        html_content: String,
        text_content: String,
    ) -> (email: ServerEmail)
        ensures
            email.sender@ == self.sender(),
            email.recipient@ == recipient@,
            email.subject@ == subject@,
            email.body@ == html_content@ + text_content@,
    {
        ServerEmail::new(self.sender.clone(), recipient, subject, html_content, text_content)
    }

    /// The email that asks `recipient` to confirm the address with the
    /// given token.
    pub fn send_confirmation_email(&self, recipient: Email, confirmation_token: &str) -> (email:
        ServerEmail)
        ensures
            email.sender@ == self.sender(),
            email.recipient@ == recipient@,
            email.subject@ == confirmation_subject(),
            email.body@ == confirmation_body(confirmation_token@),
    {
        let mut body = "<a href=\"/confirm/".to_owned();
        body.append(confirmation_token);
        body.append("\"");
        let email = self.send_email(
            recipient,
            "Confirm Your Email".to_owned(),
            body,
            String::new(),
        );
        email
    }
}

} // verus!
