//! The token that a user hands back to confirm an email address.
use vstd::prelude::*;
use crate::utils::identity::Identity;

verus! {

/// The text of a confirmation token, kept apart from what may be logged.
#[derive(Debug)]
pub struct ConfirmationTokenInner(String);

impl View for ConfirmationTokenInner {
    type V = Seq<char>;

    closed spec fn view(&self) -> Seq<char> {
        self.0@
    }
}

impl ConfirmationTokenInner {
    /// The token with the given text.
    pub fn new(token: String) -> (inner: Self)
        ensures
            inner@ == token@,
    {
        ConfirmationTokenInner(token)
    }
}

/// A confirmation token and the user that it was issued for.
#[derive(Debug)]
pub struct ConfirmationToken {
    inner: ConfirmationTokenInner,
    user_id: Identity,
}

/// The mathematical value of a `ConfirmationToken`.
pub struct ConfirmationTokenView {
    pub inner: Seq<char>,
    pub user_id: Identity,
}

impl View for ConfirmationToken {
    type V = ConfirmationTokenView;

    closed spec fn view(&self) -> ConfirmationTokenView {
        ConfirmationTokenView { inner: self.inner@, user_id: self.user_id }
    }
}

impl ConfirmationToken {
    /// The token with the given text, issued for the given user.
    pub fn new(inner: String, user_id: Identity) -> (token: Self)
        ensures
            token@ == (ConfirmationTokenView { inner: inner@, user_id }),
    {
        ConfirmationToken { inner: ConfirmationTokenInner(inner), user_id }
    }

    /// A copy of the token's text.
    pub fn expose(&self) -> (text: String)
        ensures
            text@ == self@.inner,
    {
        self.inner.0.clone()
    }

    /// A copy of the token's text.
    pub fn inner(&self) -> (text: String)
        ensures
            text@ == self@.inner,
    {
        self.inner.0.clone()
    }

    /// The user that the token was issued for.
    pub fn user_id(&self) -> (id: Identity)
        ensures
            id == self@.user_id,
    {
        self.user_id
    }

    /// Puts `inner` in place of the token's text.
    pub fn set_inner(&mut self, inner: String)
        ensures
            final(self)@ == (ConfirmationTokenView { inner: inner@, ..old(self)@ }),
    {
        self.inner = ConfirmationTokenInner(inner);
    }

    /// Puts `user_id` in place of the token's user.
    pub fn set_user_id(&mut self, user_id: Identity)
        ensures
            final(self)@ == (ConfirmationTokenView { user_id, ..old(self)@ }),
    {
        self.user_id = user_id;
    }
}

} // verus!
