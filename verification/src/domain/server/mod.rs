//! Servers and the requests that create and change them.
pub mod update;

use vstd::prelude::*;
use crate::utils::clock::Timestamp;
use crate::utils::identity::Identity;
use crate::utils::text::{clone_option_text, option_text};

verus! {

/// The longest name of a server, in bytes.
pub const MAX_SERVER_NAME_LENGTH: usize = 50;

/// What a request to create a server holds.
#[derive(Debug)]
pub struct CreateServerRequestData {
    pub name: String,
    pub description: Option<String>,
    pub photo: Option<String>,
    pub cover_photo: Option<String>,
}

/// What a request to change a server holds.
#[derive(Debug)]
pub struct UpdateServerRequestData {
    pub name: Option<String>,
    pub owner_id: Option<String>,
    pub description: Option<String>,
    pub photo: Option<String>,
    pub cover_photo: Option<String>,
}

/// A server: a named group that a user owns.
#[derive(Debug)]
pub struct Server {
    id: Identity,
    name: String,
    owner_id: Identity,
    description: Option<String>,
    photo: Option<String>,
    cover_photo: Option<String>,
    created_at: Timestamp,
    updated_at: Timestamp,
    deleted_at: Option<Timestamp>,
}

/// The mathematical value of a `Server`.
pub struct ServerView {
    pub id: Identity,
    pub name: Seq<char>,
    pub owner_id: Identity,
    pub description: Option<Seq<char>>,
    pub photo: Option<Seq<char>>,
    pub cover_photo: Option<Seq<char>>,
    pub created_at: Timestamp,
    pub updated_at: Timestamp,
    pub deleted_at: Option<Timestamp>,
}

impl View for Server {
    type V = ServerView;

    closed spec fn view(&self) -> ServerView {
        ServerView {
            id: self.id,
            name: self.name@,
            owner_id: self.owner_id,
            description: option_text(self.description),
            photo: option_text(self.photo),
            cover_photo: option_text(self.cover_photo),
            created_at: self.created_at,
            updated_at: self.updated_at,
            deleted_at: self.deleted_at,
        }
    }
}

impl Server {
    /// The server with the given fields.
    pub fn new(
        id: Identity,
        name: String,
        owner_id: Identity,
        description: Option<String>,
        photo: Option<String>,
        cover_photo: Option<String>,
        created_at: Timestamp,
        updated_at: Timestamp,
        deleted_at: Option<Timestamp>,
    ) -> (made: Self)
        ensures
            made@ == (ServerView {
                id: id,
                name: name@,
                owner_id: owner_id,
                description: option_text(description),
                photo: option_text(photo),
                cover_photo: option_text(cover_photo),
                created_at: created_at,
                updated_at: updated_at,
                deleted_at: deleted_at,
            }),
    {
        Server { id, name, owner_id, description, photo, cover_photo, created_at, updated_at, deleted_at }
    }

    /// The id of the server.
    pub fn id(&self) -> (value: Identity)
        ensures
            value == self@.id,
    {
        self.id
    }

    /// The name of the server.
    pub fn name(&self) -> (value: String)
        ensures
            value@ == self@.name,
    {
        self.name.clone()
    }

    /// The user who owns the server.
    pub fn owner_id(&self) -> (value: Identity)
        ensures
            value == self@.owner_id,
    {
        self.owner_id
    }

    /// What the server is about, if said.
    pub fn description(&self) -> (value: Option<String>)
        ensures
            option_text(value) == self@.description,
    {
        clone_option_text(&self.description)
    }

    /// The address of the server's photo, if it has one.
    pub fn photo(&self) -> (value: Option<String>)
        ensures
            option_text(value) == self@.photo,
    {
        clone_option_text(&self.photo)
    }

    /// The address of the server's cover photo, if it has one.
    pub fn cover_photo(&self) -> (value: Option<String>)
        ensures
            option_text(value) == self@.cover_photo,
    {
        clone_option_text(&self.cover_photo)
    }

    /// When the server was stored first.
    pub fn created_at(&self) -> (value: Timestamp)
        ensures
            value == self@.created_at,
    {
        self.created_at
    }

    /// When the server was changed last.
    pub fn updated_at(&self) -> (value: Timestamp)
        ensures
            value == self@.updated_at,
    {
        self.updated_at
    }

    /// When the server was deleted, if it was.
    pub fn deleted_at(&self) -> (value: Option<Timestamp>)
        ensures
            value == self@.deleted_at,
    {
        self.deleted_at
    }

    /// Puts `id` in place of what the field held.
    pub fn set_id(&mut self, id: Identity)
        ensures
            final(self)@ == (ServerView { id: id, ..old(self)@ }),
    {
        self.id = id;
    }

    /// Puts `name` in place of what the field held.
    pub fn set_name(&mut self, name: String)
        ensures
            final(self)@ == (ServerView { name: name@, ..old(self)@ }),
    {
        self.name = name;
    }

    /// Puts `owner_id` in place of what the field held.
    pub fn set_owner_id(&mut self, owner_id: Identity)
        ensures
            final(self)@ == (ServerView { owner_id: owner_id, ..old(self)@ }),
    {
        self.owner_id = owner_id;
    }

    /// Puts `description` in place of what the field held.
    pub fn set_description(&mut self, description: Option<String>)
        ensures
            final(self)@ == (ServerView { description: option_text(description), ..old(self)@ }),
    {
        self.description = description;
    }

    /// Puts `photo` in place of what the field held.
    pub fn set_photo(&mut self, photo: Option<String>)
        ensures
            final(self)@ == (ServerView { photo: option_text(photo), ..old(self)@ }),
    {
        self.photo = photo;
    }

    /// Puts `cover_photo` in place of what the field held.
    pub fn set_cover_photo(&mut self, cover_photo: Option<String>)
        ensures
            final(self)@ == (ServerView { cover_photo: option_text(cover_photo), ..old(self)@ }),
    {
        self.cover_photo = cover_photo;
    }

    /// Puts `updated_at` in place of what the field held.
    pub fn set_updated_at(&mut self, updated_at: Timestamp)
        ensures
            final(self)@ == (ServerView { updated_at: updated_at, ..old(self)@ }),
    {
        self.updated_at = updated_at;
    }

    /// Puts `deleted_at` in place of what the field held.
    pub fn set_deleted_at(&mut self, deleted_at: Option<Timestamp>)
        ensures
            final(self)@ == (ServerView { deleted_at: deleted_at, ..old(self)@ }),
    {
        self.deleted_at = deleted_at;
    }

    /// The server that a request asks to create: it gets the given id and
    /// owner, and `now` as the moment of its storing and last change.
    pub fn from_create_request(
        body: CreateServerRequestData,
        id: Identity,
        owner_id: Identity,
        now: Timestamp,
    ) -> (made: Self)
        ensures
            made@ == (ServerView {
                id,
                name: body.name@,
                owner_id,
                description: option_text(body.description),
                photo: option_text(body.photo),
                cover_photo: option_text(body.cover_photo),
                created_at: now,
                updated_at: now,
                deleted_at: None,
            }),
    {
        Server {
            id,
            name: body.name,
            owner_id,
            description: body.description,
            photo: body.photo,
            cover_photo: body.cover_photo,
            created_at: now,
            updated_at: now,
            deleted_at: None,
        }
    }

    /// Whether the server is marked as deleted.
    pub fn is_deleted(&self) -> (yes: bool)
        ensures
            yes == self@.deleted_at is Some,
    {
        self.deleted_at.is_some()
    }
}

} // verus!
