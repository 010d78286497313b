//! Changing an account: all of it, or the fields that a request names.
use vstd::prelude::*;
use vstd::string::StringExecFns;
use crate::domain::user::credentials::email::Email;
use crate::domain::user::credentials::handle::Handle;
use crate::domain::user::credentials::password::Password;
use crate::domain::user::{User, UserView};
use crate::handlers::response::{bare, said, Response, Status, StoreError};
use crate::utils::identity::Identity;
use crate::utils::text::{option_text, same_option_text};

verus! {

/// What is said of an account that the store does not hold.
pub open spec fn user_not_found_message() -> Seq<char> {
    "User not found"@
}

/// The account to save for a request that replaces the account `id`: the
/// account of the request, under that id.
pub fn update(id: Identity, details: User) -> (user: User)
    ensures
        user@ == (UserView { id, ..details@ }),
{
    let mut user = details;
    user.set_id(id);
    user
}

/// The answer once the store has tried to save a change.
pub fn saved(outcome: &Result<(), StoreError>) -> (response: Response)
    ensures
        response@ == match outcome {
            Ok(_) => bare(Status::Success),
            Err(StoreError::RowNotFound) => said(Status::NotFound, user_not_found_message()),
            Err(StoreError::Other(_)) => bare(Status::InternalServerError),
        },
{
    match outcome {
        Ok(_) => Response::finish(Status::Success),
        Err(StoreError::RowNotFound) => Response::text(Status::NotFound, "User not found"),
        Err(StoreError::Other(_)) => Response::finish(Status::InternalServerError),
    }
}

/// The fields of an account that a request asks to change, each with its
/// new value.
#[derive(Debug)]
pub struct PatchUserRequestBody {
    pub email: Option<Email>,
    pub handle: Option<Handle>,
    pub password: Option<Password>,
    pub name: Option<String>,
    pub profile_photo: Option<String>,
    pub bio: Option<String>,
}

/// The mathematical value of a `PatchUserRequestBody`.
pub struct PatchView {
    pub email: Option<Seq<char>>,
    pub handle: Option<Seq<char>>,
    pub password: Option<Seq<char>>,
    pub name: Option<Seq<char>>,
    pub profile_photo: Option<Seq<char>>,
    pub bio: Option<Seq<char>>,
}

impl View for PatchUserRequestBody {
    type V = PatchView;

    open spec fn view(&self) -> PatchView {
        PatchView {
            email: match self.email {
                Some(e) => Some(e@),
                None => None,
            },
            handle: match self.handle {
                Some(h) => Some(h@),
                None => None,
            },
            password: match self.password {
                Some(p) => Some(p@),
                None => None,
            },
            name: option_text(self.name),
            profile_photo: option_text(self.profile_photo),
            bio: option_text(self.bio),
        }
    }
}

/// Whether two values agree where both are given.
pub open spec fn agree(a: Option<Seq<char>>, b: Option<Seq<char>>) -> bool {
    a is Some && b is Some ==> a == b
}

/// The start of the statement that changes an account.
pub open spec fn patch_head() -> Seq<char> {
    "\n            UPDATE users\n            SET\n            "@
}

/// The assignment of a value to a column, if the value is given: the
/// column, ` = '`, the value, `'`, and a comma in front unless it is the
/// first assignment.
pub open spec fn assignment(first: bool, column: Seq<char>, value: Option<Seq<char>>) -> Seq<char> {
    match value {
        Some(v) => (if first {
            Seq::<char>::empty()
        } else {
            ","@
        }) + column + " = '"@ + v + "'"@,
        None => Seq::<char>::empty(),
    }
}

impl PatchView {
    /// Whether the request names a field at all.
    pub open spec fn any(self) -> bool {
        self.email is Some || self.handle is Some || self.password is Some || self.name is Some
            || self.profile_photo is Some || self.bio is Some
    }

    /// The statement up to its last assignment: the head, then the
    /// assignments of the named fields in the order email, handle,
    /// password, name, profile_photo, bio, separated by commas.
    pub open spec fn body(self) -> Seq<char> {
        let email = patch_head() + assignment(true, "email"@, self.email);
        let handle = email + assignment(self.email is None, "handle"@, self.handle);
        let password = handle + assignment(
            self.email is None && self.handle is None,
            "password"@,
            self.password,
        );
        let name = password + assignment(
            self.email is None && self.handle is None && self.password is None,
            "name"@,
            self.name,
        );
        let profile_photo = name + assignment(
            self.email is None && self.handle is None && self.password is None && self.name is None,
            "profile_photo"@,
            self.profile_photo,
        );
        profile_photo + assignment(
            self.email is None && self.handle is None && self.password is None && self.name is None
                && self.profile_photo is None,
            "bio"@,
            self.bio,
        )
    }

    /// The statement that changes the named fields of the account `id`;
    /// `None` where the request names no field.
    pub open spec fn query(self, id: Identity) -> Option<Seq<char>> {
        if self.any() {
            Some(
                "\n            "@ + self.body() + "\n            WHERE id = '"@ + id.text()
                    + "';\n            "@,
            )
        } else {
            None
        }
    }
}

/// Appends the assignment of a value to a column, if the value is given.
fn push_assignment(q: &mut String, any_present: &mut bool, column: &str, value: Option<&str>)
    ensures
        final(q)@ == old(q)@ + assignment(
            !*old(any_present),
            column@,
            match value {
                Some(v) => Some(v@),
                None => None,
            },
        ),
        *final(any_present) == (*old(any_present) || value is Some),
{
    if let Some(v) = value {
        if *any_present {
            q.append(",");
        }
        q.append(column);
        q.append(" = '");
        q.append(v);
        q.append("'");
        *any_present = true;
    }
}

impl PatchUserRequestBody {
    /// Whether two requests agree on every field that both name.
    pub fn eq(&self, other: &Self) -> (yes: bool)
        ensures
            yes == (agree(self@.email, other@.email) && agree(self@.handle, other@.handle)
                && agree(self@.password, other@.password) && agree(self@.name, other@.name)
                && agree(self@.profile_photo, other@.profile_photo) && agree(
                self@.bio,
                other@.bio,
            )),
    {
        let email = match (&self.email, &other.email) {
            (Some(a), Some(b)) => a.same(b),
            _ => true,
        };
        let handle = match (&self.handle, &other.handle) {
            (Some(a), Some(b)) => a.same(b),
            _ => true,
        };
        let password = match (&self.password, &other.password) {
            (Some(a), Some(b)) => a.same(b),
            _ => true,
        };
        let name = self.name.is_none() || other.name.is_none() || same_option_text(
            &self.name,
            &other.name,
        );
        let profile_photo = self.profile_photo.is_none() || other.profile_photo.is_none()
            || same_option_text(&self.profile_photo, &other.profile_photo);
        let bio = self.bio.is_none() || other.bio.is_none() || same_option_text(
            &self.bio,
            &other.bio,
        );
        email && handle && password && name && profile_photo && bio
    }

    /// The statement that changes the named fields of the account `id`, or
    /// `None` where the request names no field.
    pub fn build_query(&self, id: Identity) -> (query: Option<String>)
        ensures
            match query {
                Some(q) => self@.query(id) == Some(q@),
                None => self@.query(id) is None,
            },
    {
        let mut any_present = false;
        let mut q = "\n            UPDATE users\n            SET\n            ".to_owned();
        push_assignment(
            &mut q,
            &mut any_present,
            "email",
            match &self.email {
                Some(e) => Some(e.as_ref()),
                None => None,
            },
        );
        push_assignment(
            &mut q,
            &mut any_present,
            "handle",
            match &self.handle {
                Some(h) => Some(h.as_ref()),
                None => None,
            },
        );
        push_assignment(
            &mut q,
            &mut any_present,
            "password",
            match &self.password {
                Some(p) => Some(p.as_ref()),
                None => None,
            },
        );
        push_assignment(
            &mut q,
            &mut any_present,
            "name",
            match &self.name {
                Some(n) => Some(n.as_str()),
                None => None,
            },
        );
        push_assignment(
            &mut q,
            &mut any_present,
            "profile_photo",
            match &self.profile_photo {
                Some(p) => Some(p.as_str()),
                None => None,
            },
        );
        push_assignment(
            &mut q,
            &mut any_present,
            "bio",
            match &self.bio {
                Some(b) => Some(b.as_str()),
                None => None,
            },
        );
        if any_present {
            let mut query = "\n            ".to_owned();
            query.append(q.as_str());
            query.append("\n            WHERE id = '");
            query.append(id.to_text().as_str());
            query.append("';\n            ");
            Some(query)
        } else {
            None
        }
    }
}

/// The answer to a request that changes fields of the account `id`,
/// where the request names none: nothing was changed.
pub fn patch_nothing() -> (response: Response)
    ensures
        response@ == bare(Status::NotModified),
{
    Response::finish(Status::NotModified)
}

} // verus!
