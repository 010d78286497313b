//! Stored conversations: threads between two users and their messages.
use vstd::prelude::*;
use crate::utils::clock::Timestamp;
use crate::utils::identity::Identity;
use crate::utils::text::{clone_option_text, option_text, same_option_text};

verus! {

/// One message of a thread between two users, as it is stored.
#[derive(Debug)]
pub struct DirectMessage {
    id: Identity,
    thread_id: Identity,
    sender_id: Identity,
    message: String,
    is_read: bool,
    reaction: Option<String>,
    created_at: Timestamp,
    updated_at: Timestamp,
    deleted_at: Option<Timestamp>,
}

/// The mathematical value of a `DirectMessage`.
pub struct DirectMessageView {
    pub id: Identity,
    pub thread_id: Identity,
    pub sender_id: Identity,
    pub message: Seq<char>,
    pub is_read: bool,
    pub reaction: Option<Seq<char>>,
    pub created_at: Timestamp,
    pub updated_at: Timestamp,
    pub deleted_at: Option<Timestamp>,
}

impl View for DirectMessage {
    type V = DirectMessageView;

    closed spec fn view(&self) -> DirectMessageView {
        DirectMessageView {
            id: self.id,
            thread_id: self.thread_id,
            sender_id: self.sender_id,
            message: self.message@,
            is_read: self.is_read,
            reaction: option_text(self.reaction),
            created_at: self.created_at,
            updated_at: self.updated_at,
            deleted_at: self.deleted_at,
        }
    }
}

impl DirectMessage {
    /// The message with the given fields.
    pub fn new(
        id: Identity,
        thread_id: Identity,
        sender_id: Identity,
        message: String,
        is_read: bool,
        reaction: Option<String>,
        created_at: Timestamp,
        updated_at: Timestamp,
        deleted_at: Option<Timestamp>,
    ) -> (made: Self)
        ensures
            made@ == (DirectMessageView {
                id: id,
                thread_id: thread_id,
                sender_id: sender_id,
                message: message@,
                is_read: is_read,
                reaction: option_text(reaction),
                created_at: created_at,
                updated_at: updated_at,
                deleted_at: deleted_at,
            }),
    {
        DirectMessage { id, thread_id, sender_id, message, is_read, reaction, created_at, updated_at, deleted_at }
    }

    /// The id of the message.
    pub fn id(&self) -> (value: Identity)
        ensures
            value == self@.id,
    {
        self.id
    }

    /// The thread that the message belongs to.
    pub fn thread_id(&self) -> (value: Identity)
        ensures
            value == self@.thread_id,
    {
        self.thread_id
    }

    /// The user who wrote the message.
    pub fn sender_id(&self) -> (value: Identity)
        ensures
            value == self@.sender_id,
    {
        self.sender_id
    }

    /// The text of the message.
    pub fn message(&self) -> (value: String)
        ensures
            value@ == self@.message,
    {
        self.message.clone()
    }

    /// Whether the receiver has read the message.
    pub fn is_read(&self) -> (value: bool)
        ensures
            value == self@.is_read,
    {
        self.is_read
    }

    /// The receiver's reaction, if any.
    pub fn reaction(&self) -> (value: Option<String>)
        ensures
            option_text(value) == self@.reaction,
    {
        clone_option_text(&self.reaction)
    }

    /// When the message was stored first.
    pub fn created_at(&self) -> (value: Timestamp)
        ensures
            value == self@.created_at,
    {
        self.created_at
    }

    /// When the message was changed last.
    pub fn updated_at(&self) -> (value: Timestamp)
        ensures
            value == self@.updated_at,
    {
        self.updated_at
    }

    /// When the message was deleted, if it was.
    pub fn deleted_at(&self) -> (value: Option<Timestamp>)
        ensures
            value == self@.deleted_at,
    {
        self.deleted_at
    }

    /// Puts `updated_at` in place of what the field held.
    pub fn set_updated_at(&mut self, updated_at: Timestamp)
        ensures
            final(self)@ == (DirectMessageView { updated_at: updated_at, ..old(self)@ }),
    {
        self.updated_at = updated_at;
    }

    /// Puts `deleted_at` in place of what the field held.
    pub fn set_deleted_at(&mut self, deleted_at: Option<Timestamp>)
        ensures
            final(self)@ == (DirectMessageView { deleted_at: deleted_at, ..old(self)@ }),
    {
        self.deleted_at = deleted_at;
    }

    /// Whether two messages are the same but for the moments of their
    /// storing and last change.
    pub open spec fn matches(self: &DirectMessage, other: &DirectMessage) -> bool {
        &&& self@.id == other@.id
        &&& self@.thread_id == other@.thread_id
        &&& self@.sender_id == other@.sender_id
        &&& self@.message == other@.message
        &&& self@.is_read == other@.is_read
        &&& self@.reaction == other@.reaction
        &&& self@.deleted_at == other@.deleted_at
    }

    /// Whether two messages are the same but for the moments of their
    /// storing and last change.
    pub fn same(&self, other: &DirectMessage) -> (yes: bool)
        ensures
            yes == self.matches(other),
    {
        self.id == other.id && self.thread_id == other.thread_id && self.sender_id
            == other.sender_id && self.message.as_str().eq(other.message.as_str()) && self.is_read
            == other.is_read && same_option_text(&self.reaction, &other.reaction)
            && self.deleted_at == other.deleted_at
    }
}

/// A thread of messages between two users, as it is stored.
#[derive(Debug)]
pub struct DMThread {
    id: Identity,
    first_user_id: Identity,
    second_user_id: Identity,
    created_at: Timestamp,
    updated_at: Timestamp,
    deleted_at: Option<Timestamp>,
}

/// The mathematical value of a `DMThread`.
pub struct DMThreadView {
    pub id: Identity,
    pub first_user_id: Identity,
    pub second_user_id: Identity,
    pub created_at: Timestamp,
    pub updated_at: Timestamp,
    pub deleted_at: Option<Timestamp>,
}

impl View for DMThread {
    type V = DMThreadView;

    closed spec fn view(&self) -> DMThreadView {
        DMThreadView {
            id: self.id,
            first_user_id: self.first_user_id,
            second_user_id: self.second_user_id,
            created_at: self.created_at,
            updated_at: self.updated_at,
            deleted_at: self.deleted_at,
        }
    }
}

impl DMThread {
    /// The thread with the given fields.
    pub fn new(
        id: Identity,
        first_user_id: Identity,
        second_user_id: Identity,
        created_at: Timestamp,
        updated_at: Timestamp,
        deleted_at: Option<Timestamp>,
    ) -> (made: Self)
        ensures
            made@ == (DMThreadView {
                id: id,
                first_user_id: first_user_id,
                second_user_id: second_user_id,
                created_at: created_at,
                updated_at: updated_at,
                deleted_at: deleted_at,
            }),
    {
        DMThread { id, first_user_id, second_user_id, created_at, updated_at, deleted_at }
    }

    /// The id of the thread.
    pub fn id(&self) -> (value: Identity)
        ensures
            value == self@.id,
    {
        self.id
    }

    /// One of the two users.
    pub fn first_user_id(&self) -> (value: Identity)
        ensures
            value == self@.first_user_id,
    {
        self.first_user_id
    }

    /// The other of the two users.
    pub fn second_user_id(&self) -> (value: Identity)
        ensures
            value == self@.second_user_id,
    {
        self.second_user_id
    }

    /// When the thread was stored first.
    pub fn created_at(&self) -> (value: Timestamp)
        ensures
            value == self@.created_at,
    {
        self.created_at
    }

    /// When the thread was changed last.
    pub fn updated_at(&self) -> (value: Timestamp)
        ensures
            value == self@.updated_at,
    {
        self.updated_at
    }

    /// When the thread was deleted, if it was.
    pub fn deleted_at(&self) -> (value: Option<Timestamp>)
        ensures
            value == self@.deleted_at,
    {
        self.deleted_at
    }

    /// Puts `updated_at` in place of what the field held.
    pub fn set_updated_at(&mut self, updated_at: Timestamp)
        ensures
            final(self)@ == (DMThreadView { updated_at: updated_at, ..old(self)@ }),
    {
        self.updated_at = updated_at;
    }

    /// Puts `deleted_at` in place of what the field held.
    pub fn set_deleted_at(&mut self, deleted_at: Option<Timestamp>)
        ensures
            final(self)@ == (DMThreadView { deleted_at: deleted_at, ..old(self)@ }),
    {
        self.deleted_at = deleted_at;
    }

    /// Whether two threads have the same id and the same two users.
    pub open spec fn matches(self: &DMThread, other: &DMThread) -> bool {
        &&& self@.id == other@.id
        &&& self@.first_user_id == other@.first_user_id
        &&& self@.second_user_id == other@.second_user_id
    }

    /// Whether two threads have the same id and the same two users.
    pub fn same(&self, other: &DMThread) -> (yes: bool)
        ensures
            yes == self.matches(other),
    {
        self.id == other.id && self.first_user_id == other.first_user_id && self.second_user_id
            == other.second_user_id
    }
}

} // verus!
