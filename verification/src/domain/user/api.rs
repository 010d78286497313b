//! What the server answers when asked for a user.
use vstd::prelude::*;
use super::credentials::email::Email;
use super::credentials::handle::Handle;
use super::User;
use crate::utils::identity::Identity;
use crate::utils::text::{clone_option_text, option_text};

verus! {

/// What of an account is shown to whoever asks for it.
#[derive(Debug)]
pub struct GetUserResponse {
    id: Identity,
    email: Email,
    handle: Handle,
    name: Option<String>,
    profile_photo: Option<String>,
    bio: Option<String>,
}

/// The mathematical value of a `GetUserResponse`.
pub struct GetUserResponseView {
    pub id: Identity,
    pub email: Seq<char>,
    pub handle: Seq<char>,
    pub name: Option<Seq<char>>,
    pub profile_photo: Option<Seq<char>>,
    pub bio: Option<Seq<char>>,
}

impl View for GetUserResponse {
    type V = GetUserResponseView;

    closed spec fn view(&self) -> GetUserResponseView {
        GetUserResponseView {
            id: self.id,
            email: self.email@,
            handle: self.handle@,
            name: option_text(self.name),
            profile_photo: option_text(self.profile_photo),
            bio: option_text(self.bio),
        }
    }
}

impl GetUserResponse {
    /// The answer with the given fields.
    pub fn new(
        id: Identity,
        email: Email,
        handle: Handle,
        name: Option<String>,
        profile_photo: Option<String>,
        bio: Option<String>,
    ) -> (made: Self)
        ensures
            made@ == (GetUserResponseView {
                id: id,
                email: email@,
                handle: handle@,
                name: option_text(name),
                profile_photo: option_text(profile_photo),
                bio: option_text(bio),
            }),
    {
        GetUserResponse { id, email, handle, name, profile_photo, bio }
    }

    /// The id of the account.
    pub fn id(&self) -> (value: Identity)
        ensures
            value == self@.id,
    {
        self.id
    }

    /// The email address of the account.
    pub fn email(&self) -> (value: Email)
        ensures
            value@ == self@.email,
    {
        self.email.clone()
    }

    /// The handle of the account.
    pub fn handle(&self) -> (value: Handle)
        ensures
            value@ == self@.handle,
    {
        self.handle.clone()
    }

    /// The user's name, if given.
    pub fn name(&self) -> (value: Option<String>)
        ensures
            option_text(value) == self@.name,
    {
        clone_option_text(&self.name)
    }

    /// The address of the user's photo, if there is one.
    pub fn profile_photo(&self) -> (value: Option<String>)
        ensures
            option_text(value) == self@.profile_photo,
    {
        clone_option_text(&self.profile_photo)
    }

    /// What the user says of themself, if anything.
    pub fn bio(&self) -> (value: Option<String>)
        ensures
            option_text(value) == self@.bio,
    {
        clone_option_text(&self.bio)
    }

    /// What is shown of an account: all but the password, the count of
    /// failed sign-ins, the confirmation and the three moments.
    pub fn from_user(user: &User) -> (shown: Self)
        ensures
            shown@ == (GetUserResponseView {
                id: user@.id,
                email: user@.email,
                handle: user@.handle,
                name: user@.name,
                profile_photo: user@.profile_photo,
                bio: user@.bio,
            }),
    {
        GetUserResponse {
            id: user.id(),
            email: user.email(),
            handle: user.handle(),
            name: user.name(),
            profile_photo: user.profile_photo(),
            bio: user.bio(),
        }
    }
}

} // verus!
