//! Changes to a server.
use vstd::prelude::*;
use super::UpdateServerRequestData;
use crate::utils::clock::Timestamp;
use crate::utils::identity::Identity;
use crate::utils::text::{clone_option_text, option_text};

verus! {

/// The change that a request asks of a server: a new value for each field that it names.
#[derive(Debug)]
pub struct ServerUpdate {
    id: Identity,
    name: Option<String>,
    owner_id: Option<Identity>,
    description: Option<String>,
    photo: Option<String>,
    cover_photo: Option<String>,
}

/// The mathematical value of a `ServerUpdate`.
pub struct ServerUpdateView {
    pub id: Identity,
    pub name: Option<Seq<char>>,
    pub owner_id: Option<Identity>,
    pub description: Option<Seq<char>>,
    pub photo: Option<Seq<char>>,
    pub cover_photo: Option<Seq<char>>,
}

impl View for ServerUpdate {
    type V = ServerUpdateView;

    closed spec fn view(&self) -> ServerUpdateView {
        ServerUpdateView {
            id: self.id,
            name: option_text(self.name),
            owner_id: self.owner_id,
            description: option_text(self.description),
            photo: option_text(self.photo),
            cover_photo: option_text(self.cover_photo),
        }
    }
}

impl ServerUpdate {
    /// The change with the given fields.
    pub fn new(
        id: Identity,
        name: Option<String>,
        owner_id: Option<Identity>,
        description: Option<String>,
        photo: Option<String>,
        cover_photo: Option<String>,
    ) -> (made: Self)
        ensures
            made@ == (ServerUpdateView {
                id: id,
                name: option_text(name),
                owner_id: owner_id,
                description: option_text(description),
                photo: option_text(photo),
                cover_photo: option_text(cover_photo),
            }),
    {
        ServerUpdate { id, name, owner_id, description, photo, cover_photo }
    }

    /// The owner that a request names: none where it names none, the
    /// identity where the text is one, and `Err` where it is none.
    pub open spec fn owner_of(text: Option<Seq<char>>) -> Result<Option<Identity>, ()> {
        match text {
            None => Ok(None),
            Some(t) => match Identity::parsed(t) {
                Some(id) => Ok(Some(id)),
                None => Err(()),
            },
        }
    }

    /// The change that a request asks of the server `id`, or `None` where
    /// the request names an owner that is no identity.
    pub fn from_request(body: &UpdateServerRequestData, id: Identity) -> (change: Option<Self>)
        ensures
            match change {
                Some(c) => Self::owner_of(option_text(body.owner_id)) == Ok::<Option<Identity>, ()>(
                    c@.owner_id,
                ) && c@ == (ServerUpdateView {
                    id,
                    name: option_text(body.name),
                    owner_id: c@.owner_id,
                    description: option_text(body.description),
                    photo: option_text(body.photo),
                    cover_photo: option_text(body.cover_photo),
                }),
                None => Self::owner_of(option_text(body.owner_id)) is Err,
            },
    {
        let owner_id = match &body.owner_id {
            Some(text) => match Identity::parse_str(text.as_str()) {
                Some(owner) => Some(owner),
                None => {
                    return None;
                },
            },
            None => None,
        };
        Some(
            ServerUpdate {
                id,
                name: clone_option_text(&body.name),
                owner_id,
                description: clone_option_text(&body.description),
                photo: clone_option_text(&body.photo),
                cover_photo: clone_option_text(&body.cover_photo),
            },
        )
    }

    /// The id of the server to change.
    pub fn id(&self) -> (value: Identity)
        ensures
            value == self@.id,
    {
        self.id
    }

    /// The new name, or the empty text where none is asked for.
    pub fn name(&self) -> (value: String)
        ensures
            value@ == match self@.name {
                Some(name) => name,
                None => Seq::<char>::empty(),
            },
    {
        match &self.name {
            Some(name) => name.clone(),
            None => String::new(),
        }
    }

    /// The new owner, or the nil identity where none is asked for.
    pub fn owner_id(&self) -> (value: Identity)
        ensures
            value == match self@.owner_id {
                Some(owner) => owner,
                None => Identity(0),
            },
    {
        match self.owner_id {
            Some(owner) => owner,
            None => Identity::nil(),
        }
    }

    /// The new description, if one is asked for.
    pub fn description(&self) -> (value: Option<String>)
        ensures
            option_text(value) == self@.description,
    {
        clone_option_text(&self.description)
    }

    /// The new photo, if one is asked for.
    pub fn photo(&self) -> (value: Option<String>)
        ensures
            option_text(value) == self@.photo,
    {
        clone_option_text(&self.photo)
    }

    /// The new cover photo, if one is asked for.
    pub fn cover_photo(&self) -> (value: Option<String>)
        ensures
            option_text(value) == self@.cover_photo,
    {
        clone_option_text(&self.cover_photo)
    }

    /// A change marks nothing as deleted.
    pub fn deleted_at(&self) -> (value: Option<Timestamp>)
        ensures
            value is None,
    {
        None
    }
}

} // verus!
