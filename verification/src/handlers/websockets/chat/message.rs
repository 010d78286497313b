//! The envelopes that sessions and the registry exchange, and their wire forms.
use vstd::prelude::*;
use vstd::string::StringExecFns;
use crate::utils::identity::{is_random_uuid, Identity};
use crate::utils::json::{
    decode_object, distinct_keys, encode_object, find, flat, json_object_members,
    json_object_text, member, members_of, same_members, Field, Member, MemberView, Members,
};

verus! {

/// A handle on one live session: what the registry needs to have a text
/// written to that session's socket, and nothing more.
#[derive(Clone, Copy, Debug, PartialEq, Eq, Structural, Hash)]
pub struct SessionAddr(pub u64);

/// The text of one outbound frame.
#[derive(Debug)]
pub struct Message(pub String);

/// What a chat envelope is meant for.
#[allow(non_camel_case_types)]
#[derive(Clone, Copy, Debug, PartialEq, Eq, Structural)]
pub enum MessageType {
    TYPING,
    TEXT,
    MATCH,
    UNMATCH,
}

impl Default for MessageType {
    fn default() -> (kind: Self)
        ensures
            kind == MessageType::TEXT,
    {
        MessageType::TEXT
    }
}

impl MessageType {
    /// The wire name of the kind.
    pub open spec fn name(&self) -> Seq<char> {
        match self {
            MessageType::TYPING => "TYPING"@,
            MessageType::TEXT => "TEXT"@,
            MessageType::MATCH => "MATCH"@,
            MessageType::UNMATCH => "UNMATCH"@,
        }
    }

    /// The kind with the given wire name.
    pub open spec fn named(text: Seq<char>) -> Option<MessageType> {
        if text == "TYPING"@ {
            Some(MessageType::TYPING)
        } else if text == "TEXT"@ {
            Some(MessageType::TEXT)
        } else if text == "MATCH"@ {
            Some(MessageType::MATCH)
        } else if text == "UNMATCH"@ {
            Some(MessageType::UNMATCH)
        } else {
            None
        }
    }

    /// The wire name of the kind.
    pub fn as_str(&self) -> (name: &'static str)
        ensures
            name@ == self.name(),
    {
        match self {
            MessageType::TYPING => "TYPING",
            MessageType::TEXT => "TEXT",
            MessageType::MATCH => "MATCH",
            MessageType::UNMATCH => "UNMATCH",
        }
    }

    /// The kind with the given wire name, or `None` where the name is none of the four.
    pub fn parse(text: &str) -> (kind: Option<MessageType>)
        ensures
            kind == MessageType::named(text@),
    {
        if text.eq("TYPING") {
            Some(MessageType::TYPING)
        } else if text.eq("TEXT") {
            Some(MessageType::TEXT)
        } else if text.eq("MATCH") {
            Some(MessageType::MATCH)
        } else if text.eq("UNMATCH") {
            Some(MessageType::UNMATCH)
        } else {
            None
        }
    }

    /// Every kind is found again by its wire name.
    pub proof fn lemma_named_name(kind: MessageType)
        ensures
            MessageType::named(kind.name()) == Some(kind),
    {
        reveal_strlit("TYPING");
        reveal_strlit("TEXT");
        reveal_strlit("MATCH");
        reveal_strlit("UNMATCH");
        assert("TYPING"@.len() == 6 && "TEXT"@.len() == 4);
        assert("MATCH"@.len() == 5 && "UNMATCH"@.len() == 7);
    }
}

/// The identity that a member holds as text.
pub open spec fn identity_member(members: Members, key: Seq<char>) -> Option<Identity> {
    match member(members, key) {
        Some(MemberView::Text(text)) => Identity::parsed(text),
        _ => None,
    }
}

/// The identity that the field with the given key holds as text; `None`
/// where the field is absent, is no text, or is no identity.
fn identity_field(fields: &Vec<Field>, key: &str) -> (id: Option<Identity>)
    ensures
        id == identity_member(members_of(fields@), key@),
{
    match find(fields, key) {
        Some(Member::Text(text)) => Identity::parse_str(text.as_str()),
        _ => None,
    }
}

/// A field that holds an identity as its hyphenated text.
fn identity_as_field(key: &str, id: Identity) -> (field: Field)
    ensures
        field@ == (key@, MemberView::Text(id.text())),
        Identity::parsed(id.text()) == Some(id),
{
    Field { key: key.to_owned(), value: Member::Text(id.to_text()) }
}

/// A chat envelope: content sent by one user to another.
#[derive(Debug)]
pub struct ChatMessage {
    /// The sender's own bookkeeping id of this envelope; the server never compares it.
    pub id: Identity,
    pub sender_id: Identity,
    pub receiver_id: Identity,
    pub message: String,
    pub message_type: MessageType,
}

/// The mathematical value of a `ChatMessage`.
pub struct ChatMessageView {
    pub id: Identity,
    pub sender_id: Identity,
    pub receiver_id: Identity,
    pub message: Seq<char>,
    pub message_type: MessageType,
}

impl View for ChatMessage {
    type V = ChatMessageView;

    open spec fn view(&self) -> ChatMessageView {
        ChatMessageView {
            id: self.id,
            sender_id: self.sender_id,
            receiver_id: self.receiver_id,
            message: self.message@,
            message_type: self.message_type,
        }
    }
}

impl ChatMessageView {
    /// The members of the envelope's wire form.
    pub open spec fn members(self) -> Members {
        seq![
            ("id"@, MemberView::Text(self.id.text())),
            ("sender_id"@, MemberView::Text(self.sender_id.text())),
            ("receiver_id"@, MemberView::Text(self.receiver_id.text())),
            ("message"@, MemberView::Text(self.message)),
            ("message_type"@, MemberView::Text(self.message_type.name())),
        ]
    }

    /// The wire text of the envelope.
    pub open spec fn wire(self) -> Seq<char> {
        json_object_text(self.members())
    }

    /// The id that members give an envelope: the one they hold, or the fresh
    /// one where they hold none.
    pub open spec fn decoded_id(members: Members, fresh: Identity) -> Option<Identity> {
        match member(members, "id"@) {
            None => Some(fresh),
            Some(MemberView::Text(text)) => Identity::parsed(text),
            Some(_) => None,
        }
    }

    /// The text that members give an envelope as its content.
    pub open spec fn decoded_message(members: Members) -> Option<Seq<char>> {
        match member(members, "message"@) {
            Some(MemberView::Text(text)) => Some(text),
            _ => None,
        }
    }

    /// The kind that members give an envelope: the one they name, or TEXT
    /// where they name none.
    pub open spec fn decoded_type(members: Members) -> Option<MessageType> {
        match member(members, "message_type"@) {
            None => Some(MessageType::TEXT),
            Some(MemberView::Text(text)) => MessageType::named(text),
            Some(_) => None,
        }
    }

    /// The chat envelope that the members of a JSON object denote, with
    /// `fresh` for its id where the object has none; `None` where a member
    /// is missing or malformed.
    pub open spec fn decoded(members: Members, fresh: Identity) -> Option<ChatMessageView> {
        match (
            Self::decoded_id(members, fresh),
            identity_member(members, "sender_id"@),
            identity_member(members, "receiver_id"@),
            Self::decoded_message(members),
            Self::decoded_type(members),
        ) {
            (Some(id), Some(sender_id), Some(receiver_id), Some(message), Some(message_type)) => {
                Some(ChatMessageView { id, sender_id, receiver_id, message, message_type })
            },
            _ => None,
        }
    }
}

impl ChatMessage {
    /// The fields of the envelope's wire form. Decoding them gives the
    /// envelope back, whatever fresh id is offered.
    pub fn to_fields(&self) -> (fields: Vec<Field>)
        ensures
            members_of(fields@) == self@.members(),
            forall|fresh: Identity| ChatMessageView::decoded(self@.members(), fresh) == Some(self@),
            EnvelopeView::ChatMessage(self@).identities_read_back(),
    {
        let fields = vec![
            identity_as_field("id", self.id),
            identity_as_field("sender_id", self.sender_id),
            identity_as_field("receiver_id", self.receiver_id),
            Field { key: "message".to_owned(), value: Member::Text(self.message.clone()) },
            Field {
                key: "message_type".to_owned(),
                value: Member::Text(self.message_type.as_str().to_owned()),
            },
        ];
        proof {
            ChatMessageView::lemma_round_trip(self@);
        }
        fields
    }

    /// The envelope that fields denote, with `fresh` for its id where they hold none.
    pub fn from_fields(fields: &Vec<Field>, fresh: Identity) -> (envelope: Option<ChatMessage>)
        ensures
            match envelope {
                Some(e) => ChatMessageView::decoded(members_of(fields@), fresh) == Some(e@),
                None => ChatMessageView::decoded(members_of(fields@), fresh) is None,
            },
    {
        let id = match find(fields, "id") {
            None => Some(fresh),
            Some(Member::Text(text)) => Identity::parse_str(text.as_str()),
            Some(_) => None,
        };
        let sender_id = identity_field(fields, "sender_id");
        let receiver_id = identity_field(fields, "receiver_id");
        let message = match find(fields, "message") {
            Some(Member::Text(text)) => Some(text.clone()),
            _ => None,
        };
        let message_type = match find(fields, "message_type") {
            None => Some(MessageType::TEXT),
            Some(Member::Text(text)) => MessageType::parse(text.as_str()),
            Some(_) => None,
        };
        match (id, sender_id, receiver_id, message, message_type) {
            (Some(id), Some(sender_id), Some(receiver_id), Some(message), Some(message_type)) => {
                Some(ChatMessage { id, sender_id, receiver_id, message, message_type })
            },
            _ => None,
        }
    }

    /// The wire text of the envelope. Decoding the text gives the envelope
    /// back, whatever fresh id is offered.
    pub fn encode(&self) -> (text: String)
        ensures
            text@ == self@.wire(),
            forall|fresh: Identity|
                EnvelopeView::decoded_text(text@, fresh) == Some(EnvelopeView::ChatMessage(self@)),
    {
        let text = encode_object(&self.to_fields());
        proof {
            EnvelopeView::ChatMessage(self@).lemma_members_are_plain();
            EnvelopeView::ChatMessage(self@).lemma_read_back_from_text(text@);
        }
        text
    }
}

impl ChatMessageView {
    /// Decoding the members of an envelope gives the envelope back, provided
    /// that its three identities are read back from their texts.
    pub proof fn lemma_round_trip(envelope: ChatMessageView)
        requires
            Identity::parsed(envelope.id.text()) == Some(envelope.id),
            Identity::parsed(envelope.sender_id.text()) == Some(envelope.sender_id),
            Identity::parsed(envelope.receiver_id.text()) == Some(envelope.receiver_id),
        ensures
            forall|fresh: Identity| Self::decoded(envelope.members(), fresh) == Some(envelope),
    {
        let ms = envelope.members();
        reveal_with_fuel(member, 6);
        reveal_strlit("id");
        reveal_strlit("sender_id");
        reveal_strlit("receiver_id");
        reveal_strlit("message");
        reveal_strlit("message_type");
        assert("id"@.len() == 2 && "sender_id"@.len() == 9 && "receiver_id"@.len() == 11);
        assert("message"@.len() == 7 && "message_type"@.len() == 12);
        MessageType::lemma_named_name(envelope.message_type);
        assert(member(ms, "message_type"@) == Some(
            MemberView::Text(envelope.message_type.name()),
        ));
    }
}

/// A typing envelope: whether the sender is typing to the receiver.
#[derive(Clone, Copy, Debug, PartialEq, Eq, Structural)]
pub struct Typing {
    pub sender_id: Identity,
    pub receiver_id: Identity,
    pub typing: bool,
}

impl Typing {
    /// The members of the envelope's wire form.
    pub open spec fn members(self) -> Members {
        seq![
            ("sender_id"@, MemberView::Text(self.sender_id.text())),
            ("receiver_id"@, MemberView::Text(self.receiver_id.text())),
            ("typing"@, MemberView::Flag(self.typing)),
        ]
    }

    /// The wire text of the envelope.
    pub open spec fn wire(self) -> Seq<char> {
        json_object_text(self.members())
    }

    /// The flag that members give a typing envelope.
    pub open spec fn decoded_flag(members: Members) -> Option<bool> {
        match member(members, "typing"@) {
            Some(MemberView::Flag(flag)) => Some(flag),
            _ => None,
        }
    }

    /// The typing envelope that the members of a JSON object denote; `None`
    /// where a member is missing or malformed.
    pub open spec fn decoded(members: Members) -> Option<Typing> {
        match (
            identity_member(members, "sender_id"@),
            identity_member(members, "receiver_id"@),
            Self::decoded_flag(members),
        ) {
            (Some(sender_id), Some(receiver_id), Some(typing)) => Some(
                Typing { sender_id, receiver_id, typing },
            ),
            _ => None,
        }
    }

    /// Decoding the members of an envelope gives the envelope back, provided
    /// that its two identities are read back from their texts.
    pub proof fn lemma_round_trip(envelope: Typing)
        requires
            Identity::parsed(envelope.sender_id.text()) == Some(envelope.sender_id),
            Identity::parsed(envelope.receiver_id.text()) == Some(envelope.receiver_id),
        ensures
            Self::decoded(envelope.members()) == Some(envelope),
    {
        reveal_with_fuel(member, 4);
        reveal_strlit("sender_id");
        reveal_strlit("receiver_id");
        reveal_strlit("typing");
        assert("typing"@.len() == 6 && "sender_id"@.len() == 9 && "receiver_id"@.len() == 11);
    }

    /// The members of a typing envelope hold no message, so they form no
    /// chat envelope.
    pub proof fn lemma_is_no_chat(envelope: Typing)
        ensures
            forall|fresh: Identity| ChatMessageView::decoded(envelope.members(), fresh) is None,
    {
        reveal_with_fuel(member, 4);
        reveal_strlit("sender_id");
        reveal_strlit("receiver_id");
        reveal_strlit("typing");
        reveal_strlit("message");
        assert("typing"@.len() == 6 && "sender_id"@.len() == 9 && "receiver_id"@.len() == 11);
        assert("message"@.len() == 7);
    }

    /// The fields of the envelope's wire form. Decoding them gives the envelope back.
    pub fn to_fields(&self) -> (fields: Vec<Field>)
        ensures
            members_of(fields@) == self.members(),
            Typing::decoded(self.members()) == Some(*self),
            EnvelopeView::Typing(*self).identities_read_back(),
    {
        let fields = vec![
            identity_as_field("sender_id", self.sender_id),
            identity_as_field("receiver_id", self.receiver_id),
            Field { key: "typing".to_owned(), value: Member::Flag(self.typing) },
        ];
        proof {
            Typing::lemma_round_trip(*self);
        }
        fields
    }

    /// The envelope that fields denote.
    pub fn from_fields(fields: &Vec<Field>) -> (envelope: Option<Typing>)
        ensures
            envelope == Typing::decoded(members_of(fields@)),
    {
        let sender_id = identity_field(fields, "sender_id");
        let receiver_id = identity_field(fields, "receiver_id");
        let typing = match find(fields, "typing") {
            Some(Member::Flag(flag)) => Some(*flag),
            _ => None,
        };
        match (sender_id, receiver_id, typing) {
            (Some(sender_id), Some(receiver_id), Some(typing)) => Some(
                Typing { sender_id, receiver_id, typing },
            ),
            _ => None,
        }
    }

    /// The wire text of the envelope. Decoding the text gives the envelope back.
    pub fn encode(&self) -> (text: String)
        ensures
            text@ == self.wire(),
            forall|fresh: Identity|
                EnvelopeView::decoded_text(text@, fresh) == Some(EnvelopeView::Typing(*self)),
    {
        let text = encode_object(&self.to_fields());
        proof {
            EnvelopeView::Typing(*self).lemma_members_are_plain();
            EnvelopeView::Typing(*self).lemma_read_back_from_text(text@);
        }
        text
    }
}

/// A session has completed its handshake and asks to be registered.
#[derive(Clone, Copy, Debug, PartialEq, Eq, Structural)]
pub struct Connect {
    pub addr: SessionAddr,
    pub id: Identity,
}

impl Connect {
    /// The notice that tells the other sessions of the new one.
    pub open spec fn notice(id: Identity) -> Seq<char> {
        id.text() + " connected"@
    }

    /// The notice that tells the other sessions of this one.
    pub fn notify(&self) -> (text: String)
        ensures
            text@ == Connect::notice(self.id),
    {
        let mut text = self.id.to_text();
        text.append(" connected");
        text
    }
}

/// A session has ended and asks to be forgotten.
#[derive(Clone, Copy, Debug, PartialEq, Eq, Structural)]
pub struct Disconnect {
    pub id: Identity,
}

impl Disconnect {
    /// The notice that tells the remaining sessions of the one that left.
    pub open spec fn notice(id: Identity) -> Seq<char> {
        id.text() + " disconnected"@
    }

    /// The notice that tells the remaining sessions of this one.
    pub fn notify(&self) -> (text: String)
        ensures
            text@ == Disconnect::notice(self.id),
    {
        let mut text = self.id.to_text();
        text.append(" disconnected");
        text
    }
}

/// The members of the wire form of an envelope that carries no body: who
/// sends it, to whom, and its kind.
pub open spec fn bare_members(sender_id: Identity, receiver_id: Identity, kind: MessageType) -> Members {
    seq![
        ("sender_id"@, MemberView::Text(sender_id.text())),
        ("receiver_id"@, MemberView::Text(receiver_id.text())),
        ("message_type"@, MemberView::Text(kind.name())),
    ]
}

/// The sender and the receiver that members give an envelope of the given
/// kind that carries no body; `None` where one of the two is missing or
/// malformed, the members name another kind or none, or they hold a message.
pub open spec fn bare_decoded(members: Members, kind: MessageType) -> Option<(Identity, Identity)> {
    match (
        identity_member(members, "sender_id"@),
        identity_member(members, "receiver_id"@),
        member(members, "message_type"@),
        member(members, "message"@),
    ) {
        (Some(sender_id), Some(receiver_id), Some(MemberView::Text(name)), None) => if name
            == kind.name() {
            Some((sender_id, receiver_id))
        } else {
            None
        },
        _ => None,
    }
}

/// Decoding the members of an envelope without a body gives its sender
/// and receiver back, and gives nothing for any other kind, provided that
/// the two identities are read back from their texts.
pub proof fn lemma_bare_round_trip(sender_id: Identity, receiver_id: Identity, kind: MessageType)
    requires
        Identity::parsed(sender_id.text()) == Some(sender_id),
        Identity::parsed(receiver_id.text()) == Some(receiver_id),
    ensures
        bare_decoded(bare_members(sender_id, receiver_id, kind), kind) == Some(
            (sender_id, receiver_id),
        ),
        forall|other: MessageType|
            other != kind ==> bare_decoded(bare_members(sender_id, receiver_id, kind), other)
                is None,
        forall|fresh: Identity|
            ChatMessageView::decoded(bare_members(sender_id, receiver_id, kind), fresh) is None,
        Typing::decoded(bare_members(sender_id, receiver_id, kind)) is None,
{
    reveal_with_fuel(member, 4);
    reveal_strlit("id");
    reveal_strlit("sender_id");
    reveal_strlit("receiver_id");
    reveal_strlit("message");
    reveal_strlit("message_type");
    reveal_strlit("typing");
    assert("id"@.len() == 2 && "sender_id"@.len() == 9 && "receiver_id"@.len() == 11);
    assert("message"@.len() == 7 && "message_type"@.len() == 12 && "typing"@.len() == 6);
    reveal_strlit("TYPING");
    reveal_strlit("TEXT");
    reveal_strlit("MATCH");
    reveal_strlit("UNMATCH");
    assert("TYPING"@.len() == 6 && "TEXT"@.len() == 4);
    assert("MATCH"@.len() == 5 && "UNMATCH"@.len() == 7);
}

/// The fields of the wire form of an envelope that carries no body.
fn bare_fields(sender_id: Identity, receiver_id: Identity, kind: MessageType) -> (fields: Vec<
    Field,
>)
    ensures
        members_of(fields@) == bare_members(sender_id, receiver_id, kind),
        Identity::parsed(sender_id.text()) == Some(sender_id),
        Identity::parsed(receiver_id.text()) == Some(receiver_id),
{
    let fields = vec![
        identity_as_field("sender_id", sender_id),
        identity_as_field("receiver_id", receiver_id),
        Field { key: "message_type".to_owned(), value: Member::Text(kind.as_str().to_owned()) },
    ];
    assert(members_of(fields@) =~= bare_members(sender_id, receiver_id, kind));
    fields
}

/// The sender and the receiver that fields give an envelope of the given
/// kind that carries no body.
fn bare_from_fields(fields: &Vec<Field>, kind: MessageType) -> (ends: Option<(Identity, Identity)>)
    ensures
        ends == bare_decoded(members_of(fields@), kind),
{
    let sender_id = identity_field(fields, "sender_id");
    let receiver_id = identity_field(fields, "receiver_id");
    let named = match find(fields, "message_type") {
        Some(Member::Text(name)) => name.as_str().eq(kind.as_str()),
        _ => false,
    };
    let bodiless = find(fields, "message").is_none();
    match (sender_id, receiver_id) {
        (Some(sender_id), Some(receiver_id)) => if named && bodiless {
            Some((sender_id, receiver_id))
        } else {
            None
        },
        _ => None,
    }
}

/// The sender has opened a chat with the receiver.
#[derive(Clone, Copy, Debug, PartialEq, Eq, Structural)]
pub struct Match {
    pub sender_id: Identity,
    pub receiver_id: Identity,
}

impl Match {
    /// The members of the envelope's wire form: sender, receiver and the
    /// kind MATCH, with no message.
    pub open spec fn members(self) -> Members {
        bare_members(self.sender_id, self.receiver_id, MessageType::MATCH)
    }

    /// The wire text of the envelope.
    pub open spec fn wire(self) -> Seq<char> {
        json_object_text(self.members())
    }

    /// The match envelope that the members of a JSON object denote; `None`
    /// where a member is missing or malformed, the kind is not MATCH, or
    /// the members hold a message.
    pub open spec fn decoded(members: Members) -> Option<Match> {
        match bare_decoded(members, MessageType::MATCH) {
            Some((sender_id, receiver_id)) => Some(Match { sender_id, receiver_id }),
            None => None,
        }
    }

    /// The fields of the envelope's wire form. Decoding them gives the envelope back.
    pub fn to_fields(&self) -> (fields: Vec<Field>)
        ensures
            members_of(fields@) == self.members(),
            Match::decoded(self.members()) == Some(*self),
            EnvelopeView::Match(*self).identities_read_back(),
    {
        let fields = bare_fields(self.sender_id, self.receiver_id, MessageType::MATCH);
        proof {
            lemma_bare_round_trip(self.sender_id, self.receiver_id, MessageType::MATCH);
        }
        fields
    }

    /// The envelope that fields denote.
    pub fn from_fields(fields: &Vec<Field>) -> (envelope: Option<Match>)
        ensures
            envelope == Match::decoded(members_of(fields@)),
    {
        match bare_from_fields(fields, MessageType::MATCH) {
            Some((sender_id, receiver_id)) => Some(Match { sender_id, receiver_id }),
            None => None,
        }
    }

    /// The wire text of the envelope. Decoding the text gives the envelope back.
    pub fn encode(&self) -> (text: String)
        ensures
            text@ == self.wire(),
            forall|fresh: Identity|
                EnvelopeView::decoded_text(text@, fresh) == Some(EnvelopeView::Match(*self)),
    {
        let text = encode_object(&self.to_fields());
        proof {
            EnvelopeView::Match(*self).lemma_members_are_plain();
            EnvelopeView::Match(*self).lemma_read_back_from_text(text@);
        }
        text
    }
}

/// The sender has closed its chat with the receiver.
#[derive(Clone, Copy, Debug, PartialEq, Eq, Structural)]
pub struct Unmatch {
    pub sender_id: Identity,
    pub receiver_id: Identity,
}

impl Unmatch {
    /// The members of the envelope's wire form: sender, receiver and the
    /// kind UNMATCH, with no message.
    pub open spec fn members(self) -> Members {
        bare_members(self.sender_id, self.receiver_id, MessageType::UNMATCH)
    }

    /// The wire text of the envelope.
    pub open spec fn wire(self) -> Seq<char> {
        json_object_text(self.members())
    }

    /// The unmatch envelope that the members of a JSON object denote;
    /// `None` where a member is missing or malformed, the kind is not
    /// UNMATCH, or the members hold a message.
    pub open spec fn decoded(members: Members) -> Option<Unmatch> {
        match bare_decoded(members, MessageType::UNMATCH) {
            Some((sender_id, receiver_id)) => Some(Unmatch { sender_id, receiver_id }),
            None => None,
        }
    }

    /// The fields of the envelope's wire form. Decoding them gives the envelope back.
    pub fn to_fields(&self) -> (fields: Vec<Field>)
        ensures
            members_of(fields@) == self.members(),
            Unmatch::decoded(self.members()) == Some(*self),
            EnvelopeView::Unmatch(*self).identities_read_back(),
    {
        let fields = bare_fields(self.sender_id, self.receiver_id, MessageType::UNMATCH);
        proof {
            lemma_bare_round_trip(self.sender_id, self.receiver_id, MessageType::UNMATCH);
        }
        fields
    }

    /// The envelope that fields denote.
    pub fn from_fields(fields: &Vec<Field>) -> (envelope: Option<Unmatch>)
        ensures
            envelope == Unmatch::decoded(members_of(fields@)),
    {
        match bare_from_fields(fields, MessageType::UNMATCH) {
            Some((sender_id, receiver_id)) => Some(Unmatch { sender_id, receiver_id }),
            None => None,
        }
    }

    /// The wire text of the envelope. Decoding the text gives the envelope back.
    pub fn encode(&self) -> (text: String)
        ensures
            text@ == self.wire(),
            forall|fresh: Identity|
                EnvelopeView::decoded_text(text@, fresh) == Some(EnvelopeView::Unmatch(*self)),
    {
        let text = encode_object(&self.to_fields());
        proof {
            EnvelopeView::Unmatch(*self).lemma_members_are_plain();
            EnvelopeView::Unmatch(*self).lemma_read_back_from_text(text@);
        }
        text
    }
}

/// Any of the six kinds of envelope.
#[derive(Debug)]
pub enum Envelope {
    Connect(Connect),
    Disconnect(Disconnect),
    ChatMessage(ChatMessage),
    Typing(Typing),
    Match(Match),
    Unmatch(Unmatch),
}

/// The mathematical value of an `Envelope`.
pub enum EnvelopeView {
    Connect(Connect),
    Disconnect(Disconnect),
    ChatMessage(ChatMessageView),
    Typing(Typing),
    Match(Match),
    Unmatch(Unmatch),
}

impl View for Envelope {
    type V = EnvelopeView;

    open spec fn view(&self) -> EnvelopeView {
        match self {
            Envelope::Connect(e) => EnvelopeView::Connect(*e),
            Envelope::Disconnect(e) => EnvelopeView::Disconnect(*e),
            Envelope::ChatMessage(e) => EnvelopeView::ChatMessage(e@),
            Envelope::Typing(e) => EnvelopeView::Typing(*e),
            Envelope::Match(e) => EnvelopeView::Match(*e),
            Envelope::Unmatch(e) => EnvelopeView::Unmatch(*e),
        }
    }
}

impl EnvelopeView {
    /// The identity that a routed envelope is addressed to; the two
    /// registry notices are addressed to nobody.
    pub open spec fn receiver(self) -> Option<Identity> {
        match self {
            EnvelopeView::Connect(_) => None,
            EnvelopeView::Disconnect(_) => None,
            EnvelopeView::ChatMessage(e) => Some(e.receiver_id),
            EnvelopeView::Typing(e) => Some(e.receiver_id),
            EnvelopeView::Match(e) => Some(e.receiver_id),
            EnvelopeView::Unmatch(e) => Some(e.receiver_id),
        }
    }

    /// The members of the wire form of a routed envelope; the two
    /// registry notices have none.
    pub open spec fn members(self) -> Members {
        match self {
            EnvelopeView::Connect(_) => Seq::empty(),
            EnvelopeView::Disconnect(_) => Seq::empty(),
            EnvelopeView::ChatMessage(e) => e.members(),
            EnvelopeView::Typing(e) => e.members(),
            EnvelopeView::Match(e) => e.members(),
            EnvelopeView::Unmatch(e) => e.members(),
        }
    }

    /// The text that a session gets when the envelope reaches it: the wire
    /// form of a routed envelope, which holds all that the envelope
    /// holds, and the notice of the registry's own two.
    pub open spec fn payload(self) -> Seq<char> {
        match self {
            EnvelopeView::Connect(e) => Connect::notice(e.id),
            EnvelopeView::Disconnect(e) => Disconnect::notice(e.id),
            _ => json_object_text(self.members()),
        }
    }

    /// Whether the identities that the envelope holds are read back from
    /// their texts, as every identity is that has been written.
    pub open spec fn identities_read_back(self) -> bool {
        match self {
            EnvelopeView::Connect(e) => Identity::parsed(e.id.text()) == Some(e.id),
            EnvelopeView::Disconnect(e) => Identity::parsed(e.id.text()) == Some(e.id),
            EnvelopeView::ChatMessage(e) => Identity::parsed(e.id.text()) == Some(e.id)
                && Identity::parsed(e.sender_id.text()) == Some(e.sender_id) && Identity::parsed(
                e.receiver_id.text(),
            ) == Some(e.receiver_id),
            EnvelopeView::Typing(e) => Identity::parsed(e.sender_id.text()) == Some(e.sender_id)
                && Identity::parsed(e.receiver_id.text()) == Some(e.receiver_id),
            EnvelopeView::Match(e) => Identity::parsed(e.sender_id.text()) == Some(e.sender_id)
                && Identity::parsed(e.receiver_id.text()) == Some(e.receiver_id),
            EnvelopeView::Unmatch(e) => Identity::parsed(e.sender_id.text()) == Some(e.sender_id)
                && Identity::parsed(e.receiver_id.text()) == Some(e.receiver_id),
        }
    }

    /// The envelope that the members of a JSON object denote: a chat
    /// envelope where they form one, else a typing envelope, else a match
    /// envelope, else an unmatch envelope, else none.
    pub open spec fn decoded(members: Members, fresh: Identity) -> Option<EnvelopeView> {
        match ChatMessageView::decoded(members, fresh) {
            Some(chat) => Some(EnvelopeView::ChatMessage(chat)),
            None => match Typing::decoded(members) {
                Some(typing) => Some(EnvelopeView::Typing(typing)),
                None => match Match::decoded(members) {
                    Some(opened) => Some(EnvelopeView::Match(opened)),
                    None => match Unmatch::decoded(members) {
                        Some(closed) => Some(EnvelopeView::Unmatch(closed)),
                        None => None,
                    },
                },
            },
        }
    }

    /// The members of the wire form of a routed envelope hold no nested
    /// object and no key twice.
    pub proof fn lemma_members_are_plain(self)
        ensures
            flat(self.members()),
            distinct_keys(self.members()),
    {
        reveal_strlit("id");
        reveal_strlit("sender_id");
        reveal_strlit("receiver_id");
        reveal_strlit("message");
        reveal_strlit("message_type");
        reveal_strlit("typing");
        assert("id"@.len() == 2 && "sender_id"@.len() == 9 && "receiver_id"@.len() == 11);
        assert("message"@.len() == 7 && "message_type"@.len() == 12 && "typing"@.len() == 6);
    }

    /// Members that give every key the same value denote the same envelope.
    pub proof fn lemma_same_members_same_envelope(a: Members, b: Members, fresh: Identity)
        requires
            same_members(a, b),
        ensures
            Self::decoded(a, fresh) == Self::decoded(b, fresh),
    {
        assert(member(a, "id"@) == member(b, "id"@));
        assert(member(a, "sender_id"@) == member(b, "sender_id"@));
        assert(member(a, "receiver_id"@) == member(b, "receiver_id"@));
        assert(member(a, "message"@) == member(b, "message"@));
        assert(member(a, "message_type"@) == member(b, "message_type"@));
        assert(member(a, "typing"@) == member(b, "typing"@));
    }

    /// A text that is read as members which give every key the value that
    /// the members of a routed envelope give it denotes that envelope.
    pub proof fn lemma_read_back_from_text(self, text: Seq<char>)
        requires
            self.receiver() is Some,
            self.identities_read_back(),
            json_object_members(text) matches Some(back) && same_members(back, self.members()),
        ensures
            forall|fresh: Identity| Self::decoded_text(text, fresh) == Some(self),
    {
        let back = json_object_members(text)->0;
        assert forall|fresh: Identity| Self::decoded_text(text, fresh) == Some(self) by {
            Self::lemma_same_members_same_envelope(back, self.members(), fresh);
            self.lemma_forwarded_unchanged(fresh);
        }
    }

    /// A routed envelope is forwarded unchanged: the members of its wire
    /// form denote that very envelope, of that kind, with that sender,
    /// that receiver and that content, whatever fresh id is offered.
    pub proof fn lemma_forwarded_unchanged(self, fresh: Identity)
        requires
            self.receiver() is Some,
            self.identities_read_back(),
        ensures
            Self::decoded(self.members(), fresh) == Some(self),
            self.payload() == json_object_text(self.members()),
    {
        match self {
            EnvelopeView::ChatMessage(e) => {
                ChatMessageView::lemma_round_trip(e);
            },
            EnvelopeView::Typing(e) => {
                Typing::lemma_round_trip(e);
                Typing::lemma_is_no_chat(e);
            },
            EnvelopeView::Match(e) => {
                lemma_bare_round_trip(e.sender_id, e.receiver_id, MessageType::MATCH);
            },
            EnvelopeView::Unmatch(e) => {
                lemma_bare_round_trip(e.sender_id, e.receiver_id, MessageType::UNMATCH);
                assert(Match::decoded(e.members()) is None);
            },
            _ => {},
        }
    }

    /// The envelope that the text of a client's frame denotes.
    pub open spec fn decoded_text(text: Seq<char>, fresh: Identity) -> Option<EnvelopeView> {
        match json_object_members(text) {
            Some(members) => Self::decoded(members, fresh),
            None => None,
        }
    }
}

/// The mathematical value of an envelope that may be absent.
pub open spec fn envelope_view(envelope: Option<Envelope>) -> Option<EnvelopeView> {
    match envelope {
        Some(e) => Some(e@),
        None => None,
    }
}

impl Envelope {
    /// The text that a session gets when the envelope reaches it. The
    /// text of a routed envelope is read back as that very envelope.
    pub fn payload(&self) -> (text: String)
        ensures
            text@ == self@.payload(),
            self@.receiver() is Some ==> forall|fresh: Identity|
                EnvelopeView::decoded_text(text@, fresh) == Some(self@),
    {
        match self {
            Envelope::Connect(e) => e.notify(),
            Envelope::Disconnect(e) => e.notify(),
            Envelope::ChatMessage(e) => e.encode(),
            Envelope::Typing(e) => e.encode(),
            Envelope::Match(e) => e.encode(),
            Envelope::Unmatch(e) => e.encode(),
        }
    }

    /// The envelope that a client's fields denote, with `fresh` for the id
    /// of a chat envelope that holds none.
    pub fn from_fields(fields: &Vec<Field>, fresh: Identity) -> (envelope: Option<Envelope>)
        ensures
            envelope_view(envelope) == EnvelopeView::decoded(members_of(fields@), fresh),
    {
        match ChatMessage::from_fields(fields, fresh) {
            Some(chat) => Some(Envelope::ChatMessage(chat)),
            None => match Typing::from_fields(fields) {
                Some(typing) => Some(Envelope::Typing(typing)),
                None => match Match::from_fields(fields) {
                    Some(opened) => Some(Envelope::Match(opened)),
                    None => match Unmatch::from_fields(fields) {
                        Some(closed) => Some(Envelope::Unmatch(closed)),
                        None => None,
                    },
                },
            },
        }
    }

    /// The envelope that the text of a client's frame denotes, with `fresh`
    /// for the id of a chat envelope that holds none; `None` where the text
    /// is no JSON object or its members form no envelope.
    pub fn decode_with(text: &str, fresh: Identity) -> (envelope: Option<Envelope>)
        ensures
            envelope_view(envelope) == EnvelopeView::decoded_text(text@, fresh),
    {
        match decode_object(text) {
            Some(fields) => Envelope::from_fields(&fields, fresh),
            None => None,
        }
    }

    /// The envelope that the text of a client's frame denotes, or `None`
    /// where the text is no JSON object or its members form no envelope. A
    /// chat envelope without an id gets a random one.
    pub fn decode(text: &str) -> (envelope: Option<Envelope>)
        ensures
            exists|fresh: Identity|
                is_random_uuid(fresh.0) && envelope_view(envelope) == EnvelopeView::decoded_text(
                    text@,
                    fresh,
                ),
    {
        let fresh = Identity::random();
        let envelope = Envelope::decode_with(text, fresh);
        assert(is_random_uuid(fresh.0) && envelope_view(envelope) == EnvelopeView::decoded_text(
            text@,
            fresh,
        ));
        envelope
    }
}

} // verus!
