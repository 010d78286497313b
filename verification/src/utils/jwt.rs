//! Signed identity tokens: the claims that the server issues for a user
//! and reads back from a request.
use vstd::prelude::*;
use crate::utils::clock::{add_days, days_later, now};
use crate::utils::identity::Identity;
use crate::utils::json::{
    decode_object, distinct_keys, encode_object, find, json_object_members, json_object_text,
    member,
    members_of, Field, Member, MemberView, Members,
};

verus! {

/// The key that tokens are signed with.
pub const TOKEN_SECRET: [u8; 6] = [115, 101, 99, 114, 101, 116];

/// The days for which a token is good.
pub const TOKEN_LIFETIME_DAYS: u64 = 14;

/// What a user may do on a server.
#[derive(Clone, Copy, Debug, PartialEq, Eq, Structural)]
pub enum Role {
    Owner,
    Admin,
    Moderator,
    User,
}

impl Role {
    /// The name of the role in a token.
    pub open spec fn name(&self) -> Seq<char> {
        match self {
            Role::Owner => "Owner"@,
            Role::Admin => "Admin"@,
            Role::Moderator => "Moderator"@,
            Role::User => "User"@,
        }
    }

    /// The role with the given name.
    pub open spec fn named(text: Seq<char>) -> Option<Role> {
        if text == "Owner"@ {
            Some(Role::Owner)
        } else if text == "Admin"@ {
            Some(Role::Admin)
        } else if text == "Moderator"@ {
            Some(Role::Moderator)
        } else if text == "User"@ {
            Some(Role::User)
        } else {
            None
        }
    }

    /// The name of the role in a token.
    pub fn as_str(&self) -> (name: &'static str)
        ensures
            name@ == self.name(),
    {
        match self {
            Role::Owner => "Owner",
            Role::Admin => "Admin",
            Role::Moderator => "Moderator",
            Role::User => "User",
        }
    }

    /// The role with the given name, or `None` where the name is none of the four.
    pub fn parse(text: &str) -> (role: Option<Role>)
        ensures
            role == Role::named(text@),
    {
        if text.eq("Owner") {
            Some(Role::Owner)
        } else if text.eq("Admin") {
            Some(Role::Admin)
        } else if text.eq("Moderator") {
            Some(Role::Moderator)
        } else if text.eq("User") {
            Some(Role::User)
        } else {
            None
        }
    }
}

/// The role of the token's user on one server.
#[derive(Clone, Debug)]
pub struct ServerRole {
    pub server: String,
    pub role: Role,
}

impl View for ServerRole {
    type V = (Seq<char>, Role);

    open spec fn view(&self) -> (Seq<char>, Role) {
        (self.server@, self.role)
    }
}

/// What a token says: when it ends, when it was issued, whom it is about,
/// and what that user may do on which server. Claims that this server
/// issues or reads name each server once.
#[derive(Clone, Debug)]
pub struct Claims {
    pub exp: usize,
    pub iat: usize,
    pub sub: String,
    pub allowed_servers: Vec<ServerRole>,
}

/// The mathematical value of `Claims`.
pub struct ClaimsView {
    pub exp: usize,
    pub iat: usize,
    pub sub: Seq<char>,
    pub allowed_servers: Seq<(Seq<char>, Role)>,
}

/// The mathematical value of a list of server roles.
pub open spec fn roles_view(roles: Seq<ServerRole>) -> Seq<(Seq<char>, Role)> {
    Seq::new(roles.len(), |i: int| roles[i]@)
}

impl View for Claims {
    type V = ClaimsView;

    open spec fn view(&self) -> ClaimsView {
        ClaimsView {
            exp: self.exp,
            iat: self.iat,
            sub: self.sub@,
            allowed_servers: roles_view(self.allowed_servers@),
        }
    }
}

/// Why a token could not be issued or read.
#[derive(Debug)]
pub enum Error {
    EncodeErr(String),
    DecodeErr(String),
}

/// The members of the JSON object that holds server roles.
pub open spec fn role_members(roles: Seq<(Seq<char>, Role)>) -> Members {
    Seq::new(roles.len(), |i: int| (roles[i].0, MemberView::Text(roles[i].1.name())))
}

/// Whether every member of a JSON object names a role.
pub open spec fn all_roles(members: Members) -> bool {
    forall|i: int|
        0 <= i < members.len() ==> ((#[trigger] members[i]).1 matches MemberView::Text(name)
            && Role::named(name) is Some)
}

/// The server roles that the members of a JSON object hold.
pub open spec fn roles_of(members: Members) -> Option<Seq<(Seq<char>, Role)>> {
    if all_roles(members) {
        Some(
            Seq::new(
                members.len(),
                |i: int| (members[i].0, Role::named(members[i].1->Text_0)->0),
            ),
        )
    } else {
        None
    }
}

impl ClaimsView {
    /// Whether the claims name each server once.
    pub open spec fn distinct_servers(self) -> bool {
        forall|i: int, j: int|
            0 <= i < j < self.allowed_servers.len() ==> self.allowed_servers[i].0
                != self.allowed_servers[j].0
    }

    /// The members of the JSON object that holds the claims.
    pub open spec fn members(self) -> Members {
        seq![
            ("exp"@, MemberView::Number(self.exp as u64)),
            ("iat"@, MemberView::Number(self.iat as u64)),
            ("sub"@, MemberView::Text(self.sub)),
            (
                "allowed_servers"@,
                MemberView::Object(json_object_text(role_members(self.allowed_servers))),
            ),
        ]
    }

    /// The JSON text of the claims.
    pub open spec fn text(self) -> Seq<char> {
        json_object_text(self.members())
    }

    /// The moment that a member holds.
    pub open spec fn moment(members: Members, key: Seq<char>) -> Option<usize> {
        match member(members, key) {
            Some(MemberView::Number(n)) => if n <= usize::MAX {
                Some(n as usize)
            } else {
                None
            },
            _ => None,
        }
    }

    /// The subject that members hold.
    pub open spec fn subject(members: Members) -> Option<Seq<char>> {
        match member(members, "sub"@) {
            Some(MemberView::Text(text)) => Some(text),
            _ => None,
        }
    }

    /// The server roles that members hold.
    pub open spec fn servers(members: Members) -> Option<Seq<(Seq<char>, Role)>> {
        match member(members, "allowed_servers"@) {
            Some(MemberView::Object(text)) => match json_object_members(text) {
                Some(inner) => roles_of(inner),
                None => None,
            },
            _ => None,
        }
    }

    /// The claims that the members of a JSON object hold; `None` where a
    /// member is missing or malformed.
    pub open spec fn decoded(members: Members) -> Option<ClaimsView> {
        match (
            Self::moment(members, "exp"@),
            Self::moment(members, "iat"@),
            Self::subject(members),
            Self::servers(members),
        ) {
            (Some(exp), Some(iat), Some(sub), Some(allowed_servers)) => Some(
                ClaimsView { exp, iat, sub, allowed_servers },
            ),
            _ => None,
        }
    }

    /// The claims that a JSON text holds.
    pub open spec fn decoded_text(text: Seq<char>) -> Option<ClaimsView> {
        match json_object_members(text) {
            Some(members) => Self::decoded(members),
            None => None,
        }
    }
}

/// The claims of a token issued at `now` for `id`, good until `exp`.
pub open spec fn issued(id: Identity, now: usize, exp: usize) -> ClaimsView {
    ClaimsView { exp, iat: now, sub: id.text(), allowed_servers: Seq::empty() }
}

/// The message for a token whose end cannot be computed.
pub open spec fn no_expiry_message() -> Seq<char> {
    "Failed to generate exp date for JWT"@
}

/// The message for a token whose claims are not those of this server.
pub open spec fn malformed_claims_message() -> Seq<char> {
    "Token claims are malformed"@
}

/// The signed token that carries claims, given as their JSON text, under a
/// key; `None` where the signer fails.
pub uninterp spec fn jwt_signed(claims: Seq<char>, secret: Seq<u8>) -> Option<Seq<char>>;

/// `serde_json::from_str` on the claims and `jsonwebtoken::encode` of the
/// value with the default header and `EncodingKey::from_secret`: the
/// token, or the text of the error.
#[verifier::external_body]
fn jwt_encode(claims: &str, secret: &[u8]) -> (token: Result<String, String>)
    ensures
        match token {
            Ok(t) => jwt_signed(claims@, secret@) == Some(t@),
            Err(_) => jwt_signed(claims@, secret@) is None,
        },
{
    match serde_json::from_str::<serde_json::Value>(claims) {
        Ok(body) => jsonwebtoken::encode(
            &jsonwebtoken::Header::default(),
            &body,
            &jsonwebtoken::EncodingKey::from_secret(secret),
        ).map_err(|e| e.to_string()),
        Err(e) => Err(e.to_string()),
    }
}

/// `jsonwebtoken::decode` with `DecodingKey::from_secret` and the default
/// validation, which holds the token's end against the clock: the JSON
/// text of the claims, or the text of the error.
#[verifier::external_body]
fn jwt_decode(token: &str, secret: &[u8]) -> (claims: Result<String, String>) {
    jsonwebtoken::decode::<serde_json::Value>(
        token,
        &jsonwebtoken::DecodingKey::from_secret(secret),
        &jsonwebtoken::Validation::default(),
    ).map(|data| data.claims.to_string()).map_err(|e| e.to_string())
}

impl Claims {
    /// The claims of a token for `user_id` issued at `now`, given the
    /// moment fourteen days later as the calendar computed it: the claims
    /// where that moment exists and fits, else the error.
    pub fn issue(user_id: Identity, now: usize, end: Option<i64>) -> (claims: Result<Claims, Error>)
        ensures
            match claims {
                Ok(c) => end matches Some(t) && 0 <= t <= usize::MAX && c@ == issued(
                    user_id,
                    now,
                    t as usize,
                ) && c@.distinct_servers(),
                Err(e) => !(end matches Some(t) && 0 <= t <= usize::MAX) && (e matches Error::EncodeErr(
                    message,
                ) && message@ == no_expiry_message()),
            },
    {
        match end {
            Some(t) if 0 <= t && t as u64 <= usize::MAX as u64 => {
                let claims = Claims {
                    exp: t as usize,
                    iat: now,
                    sub: user_id.to_text(),
                    allowed_servers: Vec::new(),
                };
                assert(roles_view(claims.allowed_servers@) =~= Seq::empty());
                Ok(claims)
            },
            _ => Err(Error::EncodeErr("Failed to generate exp date for JWT".to_owned())),
        }
    }

    /// The fields of the JSON object that holds the claims.
    pub fn to_fields(&self) -> (fields: Vec<Field>)
        ensures
            members_of(fields@) == self@.members(),
    {
        let mut roles: Vec<Field> = Vec::new();
        let mut i: usize = 0;
        while i < self.allowed_servers.len()
            invariant
                i <= self.allowed_servers@.len(),
                roles@.len() == i,
                forall|j: int|
                    0 <= j < i ==> (#[trigger] roles@[j])@ == (
                        self.allowed_servers@[j].server@,
                        MemberView::Text(self.allowed_servers@[j].role.name()),
                    ),
            decreases self.allowed_servers@.len() - i,
        {
            let entry = &self.allowed_servers[i];
            roles.push(
                Field {
                    key: entry.server.clone(),
                    value: Member::Text(entry.role.as_str().to_owned()),
                },
            );
            i += 1;
        }
        assert(members_of(roles@) =~= role_members(self@.allowed_servers));
        let fields = vec![
            Field { key: "exp".to_owned(), value: Member::Number(self.exp as u64) },
            Field { key: "iat".to_owned(), value: Member::Number(self.iat as u64) },
            Field { key: "sub".to_owned(), value: Member::Text(self.sub.clone()) },
            Field {
                key: "allowed_servers".to_owned(),
                value: Member::Object(encode_object(&roles)),
            },
        ];
        fields
    }

    /// The JSON text of the claims.
    pub fn encode(&self) -> (text: String)
        ensures
            text@ == self@.text(),
    {
        encode_object(&self.to_fields())
    }

    /// The claims that the fields of a JSON object hold.
    pub fn from_fields(fields: &Vec<Field>) -> (claims: Option<Claims>)
        ensures
            match claims {
                Some(c) => ClaimsView::decoded(members_of(fields@)) == Some(c@)
                    && c@.distinct_servers(),
                None => ClaimsView::decoded(members_of(fields@)) is None,
            },
    {
        let exp = moment_field(fields, "exp");
        let iat = moment_field(fields, "iat");
        let sub = match find(fields, "sub") {
            Some(Member::Text(text)) => Some(text.clone()),
            _ => None,
        };
        let allowed_servers = match find(fields, "allowed_servers") {
            Some(Member::Object(text)) => match decode_object(text.as_str()) {
                Some(inner) => {
                    proof {
                        lemma_roles_keep_keys(members_of(inner@));
                    }
                    roles_from_fields(&inner)
                },
                None => None,
            },
            _ => None,
        };
        match (exp, iat, sub, allowed_servers) {
            (Some(exp), Some(iat), Some(sub), Some(allowed_servers)) => Some(
                Claims { exp, iat, sub, allowed_servers },
            ),
            _ => None,
        }
    }

    /// The claims that a JSON text holds.
    pub fn decode(text: &str) -> (claims: Option<Claims>)
        ensures
            match claims {
                Some(c) => ClaimsView::decoded_text(text@) == Some(c@) && c@.distinct_servers(),
                None => ClaimsView::decoded_text(text@) is None,
            },
    {
        match decode_object(text) {
            Some(fields) => Claims::from_fields(&fields),
            None => None,
        }
    }

    /// The claims of a token, given what the verifier made of it: the
    /// claims that its JSON text holds, or the error with the verifier's
    /// message, or with the message that the claims are malformed.
    pub fn from_verified(verified: Result<String, String>) -> (claims: Result<Claims, Error>)
        ensures
            match verified {
                Ok(text) => match ClaimsView::decoded_text(text@) {
                    Some(view) => claims matches Ok(c) && c@ == view && c@.distinct_servers(),
                    None => claims matches Err(Error::DecodeErr(message)) && message@
                        == malformed_claims_message(),
                },
                Err(reason) => claims matches Err(Error::DecodeErr(message)) && message == reason,
            },
    {
        match verified {
            Ok(text) => match Claims::decode(text.as_str()) {
                Some(claims) => Ok(claims),
                None => Err(Error::DecodeErr("Token claims are malformed".to_owned())),
            },
            Err(reason) => Err(Error::DecodeErr(reason)),
        }
    }
}

/// The server roles that members hold have the keys of the members, so
/// where no two members have one key, no server is named twice.
proof fn lemma_roles_keep_keys(members: Members)
    requires
        distinct_keys(members),
    ensures
        roles_of(members) matches Some(roles) ==> forall|i: int, j: int|
            0 <= i < j < roles.len() ==> roles[i].0 != roles[j].0,
{
}

/// The moment that the field with the given key holds.
fn moment_field(fields: &Vec<Field>, key: &str) -> (moment: Option<usize>)
    ensures
        moment == ClaimsView::moment(members_of(fields@), key@),
{
    match find(fields, key) {
        Some(Member::Number(n)) => if *n <= usize::MAX as u64 {
            Some(*n as usize)
        } else {
            None
        },
        _ => None,
    }
}

/// The server roles that the fields of a JSON object hold.
fn roles_from_fields(fields: &Vec<Field>) -> (roles: Option<Vec<ServerRole>>)
    ensures
        match roles {
            Some(rs) => roles_of(members_of(fields@)) == Some(roles_view(rs@)),
            None => roles_of(members_of(fields@)) is None,
        },
{
    let mut roles: Vec<ServerRole> = Vec::new();
    let ghost members = members_of(fields@);
    let mut i: usize = 0;
    while i < fields.len()
        invariant
            i <= fields@.len(),
            members == members_of(fields@),
            roles@.len() == i,
            forall|j: int|
                0 <= j < i ==> ((#[trigger] members[j]).1 matches MemberView::Text(name)
                    && Role::named(name) is Some),
            forall|j: int|
                0 <= j < i ==> (#[trigger] roles@[j])@ == (
                    members[j].0,
                    Role::named(members[j].1->Text_0)->0,
                ),
        decreases fields@.len() - i,
    {
        assert(members[i as int] == fields@[i as int]@);
        match &fields[i].value {
            Member::Text(name) => match Role::parse(name.as_str()) {
                Some(role) => {
                    roles.push(ServerRole { server: fields[i].key.clone(), role });
                },
                None => {
                    return None;
                },
            },
            _ => {
                return None;
            },
        }
        i += 1;
    }
    Some(roles)
}

/// The moment at which a token issued at `now` ends, fourteen days
/// later; `None` where the calendar does not hold that moment or the
/// machine's integers do not.
pub open spec fn token_end(now: usize) -> Option<usize> {
    if now <= i64::MAX {
        match days_later(now as i64, TOKEN_LIFETIME_DAYS) {
            Some(end) => if 0 <= end <= usize::MAX {
                Some(end as usize)
            } else {
                None
            },
            None => None,
        }
    } else {
        None
    }
}

/// Whether a text is the signed token of the claims that this server
/// issues for `user_id` at some moment, good for fourteen days from then.
pub open spec fn is_token_for(token: Seq<char>, user_id: Identity) -> bool {
    exists|now: usize| #[trigger]
        token_end(now) matches Some(end) && jwt_signed(
            issued(user_id, now, end).text(),
            TOKEN_SECRET@,
        ) == Some(token)
}

/// The signed token for `user_id`, issued at `now` and good for fourteen
/// days from then: the error that tells so where that end does not exist,
/// else the token that the signer makes of the claims, else the signer's
/// error.
pub fn generate_token_at(user_id: Identity, now: usize) -> (token: Result<String, Error>)
    ensures
        match token_end(now) {
            None => token matches Err(Error::EncodeErr(message)) && message@
                == no_expiry_message(),
            Some(end) => match jwt_signed(issued(user_id, now, end).text(), TOKEN_SECRET@) {
                Some(signed) => token matches Ok(t) && t@ == signed,
                None => token matches Err(Error::EncodeErr(_)),
            },
        },
        token matches Ok(t) ==> is_token_for(t@, user_id),
{
    let end = if now as u64 <= i64::MAX as u64 {
        add_days(now as i64, TOKEN_LIFETIME_DAYS)
    } else {
        None
    };
    match Claims::issue(user_id, now, end) {
        Ok(claims) => {
            let text = claims.encode();
            match jwt_encode(text.as_str(), TOKEN_SECRET.as_slice()) {
                Ok(token) => {
                    assert(token_end(now) == Some(claims.exp));
                    Ok(token)
                },
                Err(reason) => Err(Error::EncodeErr(reason)),
            }
        },
        Err(e) => Err(e),
    }
}

/// A signed token for `user_id`, issued now: the token that carries the
/// claims of that user, issued at some moment and good for fourteen days
/// from then; the error where the clock or the calendar has no such
/// moments or the signer fails.
pub fn generate_token(user_id: Identity) -> (token: Result<String, Error>)
    ensures
        token matches Ok(t) ==> is_token_for(t@, user_id),
        token matches Err(e) ==> e is EncodeErr,
{
    let moment = now();
    if moment < 0 || moment as u64 > usize::MAX as u64 {
        return Err(Error::EncodeErr("Failed to generate exp date for JWT".to_owned()));
    }
    generate_token_at(user_id, moment as usize)
}

/// The claims of a token, where the verifier accepts it at this moment
/// and its claims are those that this server issues.
pub fn get_claims_from_token(token: String) -> (claims: Result<Claims, Error>)
    ensures
        claims matches Err(e) ==> e is DecodeErr,
        claims matches Ok(c) ==> c@.distinct_servers() && exists|text: Seq<char>|
            #[trigger] ClaimsView::decoded_text(text) == Some(c@),
{
    Claims::from_verified(jwt_decode(token.as_str(), TOKEN_SECRET.as_slice()))
}

} // verus!
