//! One session for each live socket: what it tells the registry and what
//! it answers to each inbound frame.
use vstd::prelude::*;
use crate::utils::identity::{is_random_uuid, Identity};
use crate::utils::jwt::{get_claims_from_token, Claims, Error};
use super::message::{Connect, Disconnect, Envelope, EnvelopeView, Message, SessionAddr};

verus! {

/// Where a session stands in its life.
#[derive(Clone, Copy, Debug, PartialEq, Eq, Structural)]
pub enum SessionState {
    /// The handshake is done; the session is not registered yet.
    Starting,
    /// The session is registered and handles frames.
    Active,
    /// The session has left; it handles nothing any more.
    Stopped,
}

/// Why a peer closes its socket: the code and the text of its close frame.
#[derive(Debug)]
pub struct CloseReason {
    pub code: u16,
    pub description: Option<String>,
}

/// One frame read from the socket.
#[derive(Debug)]
pub enum Frame {
    Text(String),
    Binary(Vec<u8>),
    Continuation,
    Ping(Vec<u8>),
    Pong(Vec<u8>),
    Close(Option<CloseReason>),
    Nop,
}

/// The socket could not be read as a frame.
#[derive(Clone, Copy, Debug, PartialEq, Eq, Structural)]
pub struct ProtocolError;

/// What a session does in answer to one frame.
#[derive(Debug)]
pub enum Reply {
    /// Hand the envelope to the registry.
    Forward(Envelope),
    /// Write the bytes back as a binary frame.
    Binary(Vec<u8>),
    /// Answer a liveness probe.
    Pong(Vec<u8>),
    /// Close the socket, passing the peer's reason on.
    Close(Option<CloseReason>),
    /// Leave: the socket can no longer be read.
    Stop,
    /// Nothing: the frame is dropped.
    Nothing,
}

/// The bytes of the answer to a ping.
pub open spec fn pong_payload() -> Seq<u8> {
    seq![112u8, 111u8, 110u8, 103u8]
}

/// Whether `reply` answers `frame` as an active session does, with `fresh`
/// as the id of a chat envelope that came without one. A text frame is
/// decoded and forwarded, or dropped where it holds no envelope; binary
/// data is written back; a ping is answered; a close is passed on; an
/// unreadable socket ends the session; every other frame is dropped.
pub open spec fn answers(frame: Result<Frame, ProtocolError>, reply: Reply, fresh: Identity) -> bool {
    match frame {
        Ok(Frame::Text(text)) => match EnvelopeView::decoded_text(text@, fresh) {
            Some(envelope) => reply matches Reply::Forward(e) && e@ == envelope,
            None => reply is Nothing,
        },
        Ok(Frame::Binary(bytes)) => reply matches Reply::Binary(b) && b@ == bytes@,
        Ok(Frame::Ping(_)) => reply matches Reply::Pong(b) && b@ == pong_payload(),
        Ok(Frame::Close(reason)) => reply matches Reply::Close(r) && r == reason,
        Ok(Frame::Pong(_)) => reply is Nothing,
        Ok(Frame::Continuation) => reply is Nothing,
        Ok(Frame::Nop) => reply is Nothing,
        Err(_) => reply is Stop,
    }
}

/// The session of one socket.
#[derive(Debug)]
pub struct ChatSession {
    pub id: Identity,
    pub state: SessionState,
}

impl ChatSession {
    /// A session for the user `id`, not yet registered.
    pub fn new(id: Identity) -> (session: Self)
        ensures
            session.id == id,
            session.state == SessionState::Starting,
    {
        ChatSession { id, state: SessionState::Starting }
    }

    /// The session becomes active: the envelope that registers it under
    /// its handle `addr`.
    pub fn started(&mut self, addr: SessionAddr) -> (connect: Connect)
        ensures
            connect == (Connect { addr, id: old(self).id }),
            final(self).id == old(self).id,
            final(self).state == SessionState::Active,
    {
        self.state = SessionState::Active;
        Connect { addr, id: self.id }
    }

    /// The session leaves, for whatever reason: the envelope that
    /// unregisters it. It is owed on every way out.
    pub fn stopping(&mut self) -> (disconnect: Disconnect)
        ensures
            disconnect == (Disconnect { id: old(self).id }),
            final(self).id == old(self).id,
            final(self).state == SessionState::Stopped,
    {
        self.state = SessionState::Stopped;
        Disconnect { id: self.id }
    }

    /// The answer to one inbound frame. Only an active session answers;
    /// before and after, every frame is dropped.
    pub fn handle(&self, frame: Result<Frame, ProtocolError>) -> (reply: Reply)
        ensures
            self.state != SessionState::Active ==> reply is Nothing,
            self.state == SessionState::Active ==> exists|fresh: Identity|
                is_random_uuid(fresh.0) && answers(frame, reply, fresh),
    {
        if self.state != SessionState::Active {
            return Reply::Nothing;
        }
        answer(frame, Identity::random())
    }

    /// The text to write to the socket for a message from the registry: the
    /// message as it is.
    pub fn deliver(&self, msg: Message) -> (text: String)
        ensures
            text == msg.0,
    {
        msg.0
    }
}

/// A text frame that holds the wire form of an envelope is answered by
/// forwarding that very envelope: what `encode` writes, an active session
/// hands to the registry as it was.
pub proof fn lemma_encoded_envelope_is_forwarded(
    text: String,
    envelope: EnvelopeView,
    reply: Reply,
    fresh: Identity,
)
    requires
        EnvelopeView::decoded_text(text@, fresh) == Some(envelope),
        answers(Ok(Frame::Text(text)), reply, fresh),
    ensures
        reply matches Reply::Forward(forwarded) && forwarded@ == envelope,
{
}

/// The identity that the claims of a connection's token name; nobody
/// where the token was refused or its subject is no identity.
pub open spec fn claimed_identity(claims: Result<Claims, Error>) -> Option<Identity> {
    match claims {
        Ok(c) => Identity::parsed(c.sub@),
        Err(_) => None,
    }
}

/// The session for a connection, given the claims of the token that its
/// opening request carries; `None`, which rejects the connection before
/// it is upgraded, where the token was refused or names nobody.
pub fn session_for(claims: &Result<Claims, Error>) -> (session: Option<ChatSession>)
    ensures
        match claimed_identity(*claims) {
            Some(id) => session matches Some(s) && s.id == id && s.state
                == SessionState::Starting,
            None => session is None,
        },
{
    match claims {
        Ok(c) => match Identity::parse_str(c.sub.as_str()) {
            Some(id) => Some(ChatSession::new(id)),
            None => None,
        },
        Err(_) => None,
    }
}

/// The session for a connection whose opening request carries `query`
/// as its query string, which is the identity token; `None`, which
/// rejects the connection before it is upgraded and leaves the registry
/// untouched, where the token is refused or names nobody.
pub fn chat_route(query: &str) -> (session: Option<ChatSession>)
    ensures
        exists|claims: Result<Claims, Error>|
            match #[trigger] claimed_identity(claims) {
                Some(id) => session matches Some(s) && s.id == id && s.state
                    == SessionState::Starting,
                None => session is None,
            },
{
    let claims = get_claims_from_token(query.to_owned());
    let session = session_for(&claims);
    assert(match claimed_identity(claims) {
        Some(id) => session matches Some(s) && s.id == id && s.state == SessionState::Starting,
        None => session is None,
    });
    session
}

/// The answer of an active session to one frame, with `fresh` as the id of
/// a chat envelope that came without one.
pub fn answer(frame: Result<Frame, ProtocolError>, fresh: Identity) -> (reply: Reply)
    ensures
        answers(frame, reply, fresh),
{
    match frame {
        Ok(Frame::Text(text)) => match Envelope::decode_with(text.as_str(), fresh) {
            Some(envelope) => Reply::Forward(envelope),
            None => Reply::Nothing,
        },
        Ok(Frame::Binary(bytes)) => Reply::Binary(bytes),
        Ok(Frame::Ping(_)) => Reply::Pong(vec![112u8, 111u8, 110u8, 103u8]),
        Ok(Frame::Close(reason)) => Reply::Close(reason),
        Ok(Frame::Pong(_)) => Reply::Nothing,
        Ok(Frame::Continuation) => Reply::Nothing,
        Ok(Frame::Nop) => Reply::Nothing,
        Err(_) => Reply::Stop,
    }
}

} // verus!
